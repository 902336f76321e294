//! Secondary motion.
use cc_render::cc5_json::{Cc5BreastTuning, Cc5SoftPhysics};
use cc_render::json::Num;
use cc_render::pattern::{any_match, compile_all};
use cc_render::secondary::{
    auto_detect_chains, built_in, detect_chains, plan_bones, resolve_breast_tuning, BoneEntry,
    BoneWrite, JiggleBone, JiggleMode, Stiffness, StrayLimit,
};
use cc_render::sidecar::{JiggleChainRaw, SecondaryMotionRaw};
use glam::{Quat, Vec3};
use regex::Regex;

#[test]
fn detects_hair_breast_skirt_tongue_glute() {
    let patterns: Vec<Regex> = [
        r"^CC_Base_Hair_.*",
        r".*Breast.*",
        r"^Skirt_.*",
        r"^CC_Base_Tongue.*",
        r".*Glute.*",
        r".*Buttock.*",
    ]
    .iter()
    .map(|p| Regex::new(p).unwrap())
    .collect();

    let bones: Vec<(u64, String)> = vec![
        (1, "CC_Base_Hair_Front".to_string()),
        (2, "CC_Base_Spine01".to_string()),
        (3, "BS_LeftBreast".to_string()),
        (4, "Skirt_F_01".to_string()),
        (5, "CC_Base_TongueTip".to_string()),
        (6, "CC_Base_L_Hand".to_string()),
        (7, "CC_Base_L_GluteMax".to_string()),
        (8, "CC_Base_R_GluteMed".to_string()),
        (9, "CC_Base_R_Buttock".to_string()),
        // False-positive guard: should NOT match (no Glute/Buttock substring)
        (10, "CC_Base_L_Thigh".to_string()),
    ];

    let detected = detect_chains(&bones, &patterns);
    let names: Vec<&str> = detected.iter().map(|(_, n)| n.as_str()).collect();
    assert!(names.contains(&"CC_Base_Hair_Front"));
    assert!(names.contains(&"BS_LeftBreast"));
    assert!(names.contains(&"Skirt_F_01"));
    assert!(names.contains(&"CC_Base_TongueTip"));
    assert!(names.contains(&"CC_Base_L_GluteMax"));
    assert!(names.contains(&"CC_Base_R_GluteMed"));
    assert!(names.contains(&"CC_Base_R_Buttock"));
    assert!(!names.contains(&"CC_Base_Spine01"));
    assert!(!names.contains(&"CC_Base_L_Hand"));
    assert!(!names.contains(&"CC_Base_L_Thigh"));
    let entities: Vec<u64> = detected.iter().map(|(e, _)| *e).collect();
    assert_eq!(entities, vec![1, 3, 4, 5, 7, 8, 9]);
}

#[test]
fn empty_patterns_match_nothing() {
    let bones: Vec<(u64, String)> = vec![(1, "CC_Base_Hair_Front".to_string())];
    let detected = detect_chains(&bones, &vec![]);
    assert!(detected.is_empty());
}

#[test]
fn jiggle_bone_carries_bone_entity() {
    let jb = JiggleBone {
        bone_entity: 7,
        anchor_entity: 8,
        debug_name: "TestBone".into(),
        anchor_world_rest: Quat::IDENTITY,
        bone_bind_translation: Vec3::ZERO,
        mode: JiggleMode::Rotation,
    };
    assert_eq!(jb.bone_entity, 7);
    assert_eq!(jb.anchor_entity, 8);
    assert_eq!(jb.debug_name, "TestBone");
    assert_eq!(jb.mode, JiggleMode::Rotation);
}

fn jiggle(mode: JiggleMode) -> JiggleBone<Quat, Vec3> {
    JiggleBone {
        bone_entity: 1,
        anchor_entity: 2,
        debug_name: "b".into(),
        anchor_world_rest: Quat::IDENTITY,
        bone_bind_translation: Vec3::new(0.1, 0.2, 0.3),
        mode,
    }
}

#[test]
fn sibling_writeback_at_bind_keeps_bone_at_bind() {
    // Steady-state check: if the dynamic body has settled at the
    // anchor's bind pose, the same bind pose is written to the bone.
    let bind_rot = Quat::from_rotation_y(0.3);
    let dynamic_local_rot = bind_rot;
    let at = Vec3::new(1.0, 2.0, 3.0);
    match jiggle(JiggleMode::Rotation).writeback(
        dynamic_local_rot,
        at,
        at,
        &|a: Vec3, b: Vec3| a + b,
        &|a: Vec3, b: Vec3| a - b,
    ) {
        BoneWrite::Rotation(bone_after) => assert!(bone_after.abs_diff_eq(bind_rot, 1e-5)),
        BoneWrite::Translation(_) => panic!("expected a rotation"),
    }
}

#[test]
fn a_shifted_body_shifts_its_bone() {
    let w = jiggle(JiggleMode::Translation).writeback(
        Quat::IDENTITY,
        Vec3::new(1.0, 2.0, 4.0),
        Vec3::new(1.0, 2.0, 3.0),
        &|a: Vec3, b: Vec3| a + b,
        &|a: Vec3, b: Vec3| a - b,
    );
    match w {
        BoneWrite::Translation(t) => assert!(t.abs_diff_eq(Vec3::new(0.1, 0.2, 1.3), 1e-6)),
        BoneWrite::Rotation(_) => panic!("expected a translation"),
    }
    let still = jiggle(JiggleMode::Translation).writeback(
        Quat::IDENTITY,
        Vec3::ONE,
        Vec3::ONE,
        &|a: Vec3, b: Vec3| a + b,
        &|a: Vec3, b: Vec3| a - b,
    );
    assert_eq!(still, BoneWrite::Translation(Vec3::new(0.1, 0.2, 0.3)));
}

#[test]
fn patterns_that_do_not_compile_are_dropped() {
    let patterns = compile_all(&vec!["(".to_string(), "^a+$".to_string()]);
    assert_eq!(patterns.len(), 1);
    assert!(any_match(&patterns, "aaa"));
    assert!(!any_match(&patterns, "aab"));
    assert!(!any_match(&compile_all(&vec!["[".to_string()]), "["));
}

fn bone(entity: u64, name: &str, parent: Option<u64>) -> BoneEntry {
    BoneEntry {
        entity,
        name: name.into(),
        parent,
    }
}

fn rig() -> Vec<BoneEntry> {
    vec![
        bone(1, "CC_Base_Hair_01", Some(10)),
        bone(2, "CC_Base_L_Breast", Some(11)),
        bone(3, "CC_Base_L_GluteMax", Some(12)),
        bone(4, "CC_Base_Hair_Root", None),
        bone(5, "CC_Base_Head", Some(13)),
    ]
}

#[test]
fn built_in_patterns_find_the_usual_bones() {
    let plans = auto_detect_chains(&rig(), None, None, Num::Thousandths(2000));
    let found: Vec<(u64, u64, JiggleMode)> =
        plans.iter().map(|p| (p.entity, p.parent, p.mode)).collect();
    assert_eq!(
        found,
        vec![
            (1, 10, JiggleMode::Rotation),
            (2, 11, JiggleMode::Translation),
            (3, 12, JiggleMode::Rotation),
        ]
    );
    assert_eq!(built_in().len(), 6);
    let hair = &plans[0];
    assert_eq!(hair.tuning.stiffness, Stiffness::Given(Num::Thousandths(30000)));
    assert_eq!(hair.tuning.damping, Num::Thousandths(2500));
    assert_eq!(hair.mass, Num::Thousandths(300));
    assert_eq!(hair.tuning.radius, Num::Thousandths(40));
    assert_eq!(plans[1].mass, Num::Thousandths(2000));
}

#[test]
fn authored_hair_and_chain_values_win() {
    let hair = Cc5SoftPhysics {
        mass: Num::Unsigned(9),
        damping: Num::Unsigned(8),
        drag: Num::Unsigned(0),
        stiffness_freq_hz: Num::Unsigned(7),
    };
    let plans = auto_detect_chains(&rig(), None, Some(hair), Num::Unsigned(2));
    assert_eq!(plans[0].tuning.stiffness, Stiffness::Resonant(Num::Unsigned(7)));
    assert_eq!(plans[0].tuning.damping, Num::Unsigned(8));
    assert_eq!(plans[0].mass, Num::Unsigned(9));
    assert_eq!(plans[2].tuning.stiffness, Stiffness::Given(Num::Thousandths(30000)));

    let motion = SecondaryMotionRaw {
        auto_detect_patterns: vec![".*Hair.*".into(), ".*Breast.*".into()],
        chains_override: vec![JiggleChainRaw {
            root_bone: "CC_Base_L_Breast".into(),
            stiffness: Num::Unsigned(1),
            damping: Num::Unsigned(2),
            mass_per_link: Num::Unsigned(3),
            collider_radius: Num::Unsigned(4),
        }],
    };
    let plans = auto_detect_chains(&rig(), Some(&motion), Some(hair), Num::Unsigned(50));
    assert_eq!(plans.len(), 2);
    assert_eq!(plans[1].name, "CC_Base_L_Breast");
    assert_eq!(plans[1].tuning.stiffness, Stiffness::Given(Num::Unsigned(1)));
    assert_eq!(plans[1].tuning.damping, Num::Unsigned(2));
    assert_eq!(plans[1].mass, Num::Unsigned(3));
    assert_eq!(plans[1].tuning.radius, Num::Unsigned(4));
}

#[test]
fn names_are_lowered_before_they_are_searched() {
    let motion = SecondaryMotionRaw {
        auto_detect_patterns: vec![".*".into()],
        chains_override: vec![],
    };
    let bones = vec![bone(1, "LEFT_BREAST", Some(2)), bone(3, "X", Some(2))];
    let plans = auto_detect_chains(&bones, Some(&motion), None, Num::Unsigned(5));
    assert_eq!(plans[0].mode, JiggleMode::Translation);
    assert_eq!(plans[0].mass, Num::Unsigned(5));
    assert_eq!(plans[1].mode, JiggleMode::Rotation);
}

#[test]
fn each_tuning_value_has_its_own_source() {
    let soft = Cc5SoftPhysics {
        mass: Num::Unsigned(3),
        damping: Num::Unsigned(4),
        drag: Num::Unsigned(0),
        stiffness_freq_hz: Num::Unsigned(6),
    };
    let own = Cc5BreastTuning {
        mass: Some(Num::Unsigned(1)),
        linear_stiffness: None,
        linear_damping: None,
        translation_limit: Some(Num::Unsigned(2)),
    };
    let t = resolve_breast_tuning(Some(own), Some(soft), Some(0.05f32));
    assert_eq!(t.mass, Num::Unsigned(1));
    assert_eq!(t.stiffness, Stiffness::Resonant(Num::Unsigned(6)));
    assert_eq!(t.damping, Num::Unsigned(4));
    assert_eq!(t.limit, StrayLimit::Given(Num::Unsigned(2)));
    let t = resolve_breast_tuning(None, None, Some(0.05f32));
    assert_eq!(t.mass, Num::Thousandths(2000));
    assert_eq!(t.stiffness, Stiffness::Given(Num::Thousandths(80000)));
    assert_eq!(t.damping, Num::Thousandths(300));
    assert_eq!(t.limit, StrayLimit::SixTenthsOf(0.05));
    let t = resolve_breast_tuning::<f32>(None, None, None);
    assert_eq!(t.limit, StrayLimit::Given(Num::Thousandths(200)));
}

#[test]
fn only_marked_bones_with_a_parent_are_planned() {
    let bones = vec![
        bone(1, "Root", None),
        bone(2, "Left", Some(1)),
        bone(3, "Right", Some(1)),
    ];
    let lowered: Vec<String> = vec!["root".into(), "a breast".into(), "right".into()];
    let plans = plan_bones(
        &bones,
        &vec![true, true, false],
        &lowered,
        &Vec::new(),
        None,
        Num::Unsigned(7),
    );
    assert_eq!(plans.len(), 1);
    assert_eq!((plans[0].entity, plans[0].parent), (2, 1));
    assert_eq!(plans[0].name, "Left");
    assert_eq!(plans[0].mode, JiggleMode::Translation);
    assert_eq!(plans[0].mass, Num::Unsigned(7));
}
