//! Hands, props and what is told about them.
use cc_render::grab::{
    attached_hand_for, displace_prop, handle_grab_cmds, latest_cmd, publish_scene_state, step_fsm,
    FsmTransition, GrabFsms, GrabState, HandReport, JointAction,
};
use cc_render::props::{loads_later, PropRegistry};
use cc_render::renderer::{GrabCmd, GrabOrRelease, Hand, PropShape, PropSnapshot};

fn ns(secs: f64) -> u64 {
    (secs * 1e9).round() as u64
}

fn within(wrist: [f32; 3], grasp: Option<[f32; 3]>, proximity_m: f32) -> bool {
    match grasp {
        Some(g) => {
            let d: f32 = (0..3).map(|i| (wrist[i] - g[i]) * (wrist[i] - g[i])).sum();
            d.sqrt() <= proximity_m
        }
        None => false,
    }
}

#[test]
fn fsm_idle_to_pursuing_on_grab_cmd() {
    let state = GrabState::<f32>::Idle;
    let cmd = GrabOrRelease::Grab(GrabCmd {
        hand: Hand::Right,
        target: "mug".into(),
        palm_offset_override: None,
    });
    let trans = step_fsm(
        &state,
        within([0.0, 0.0, 0.0], None, 0.05),
        ns(0.016),
        Some(&cmd),
        Hand::Right,
        ns(2.0),
    );
    assert!(matches!(trans, FsmTransition::StartPursuit { ref target, .. } if target == "mug"));
}

#[test]
fn fsm_pursuing_to_attached_on_proximity() {
    let state: GrabState<f32> = GrabState::Pursuing {
        target: "mug".into(),
        elapsed_ns: ns(0.5),
        palm_override: None,
    };
    let trans = step_fsm(
        &state,
        within([0.0, 1.0, 0.0], Some([0.0, 1.02, 0.0]), 0.05),
        ns(0.016),
        None,
        Hand::Right,
        ns(2.0),
    );
    assert!(matches!(trans, FsmTransition::Attach { ref target } if target == "mug"));
}

#[test]
fn fsm_pursuing_no_proximity_returns_no_change() {
    let state: GrabState<f32> = GrabState::Pursuing {
        target: "mug".into(),
        elapsed_ns: ns(0.5),
        palm_override: None,
    };
    let trans = step_fsm(
        &state,
        within([0.0, 1.0, 0.0], Some([0.0, 2.0, 0.0]), 0.05),
        ns(0.016),
        None,
        Hand::Right,
        ns(2.0),
    );
    assert!(matches!(trans, FsmTransition::NoChange));
}

#[test]
fn fsm_pursuing_timeout_emits_failed() {
    let state: GrabState<f32> = GrabState::Pursuing {
        target: "mug".into(),
        elapsed_ns: ns(1.99),
        palm_override: None,
    };
    let trans = step_fsm(
        &state,
        within([0.0, 1.0, 0.0], Some([0.0, 2.0, 0.0]), 0.05),
        ns(0.016),
        None,
        Hand::Right,
        ns(2.0),
    );
    assert!(matches!(trans, FsmTransition::Failed { ref reason, .. } if reason == "timeout"));
}

#[test]
fn fsm_release_detaches() {
    let state: GrabState<f32> = GrabState::Attached {
        target: "mug".into(),
        prop_entity: 42,
    };
    let cmd = GrabOrRelease::Release(Hand::Right);
    let trans = step_fsm(
        &state,
        within([0.0, 0.0, 0.0], None, 0.05),
        ns(0.016),
        Some(&cmd),
        Hand::Right,
        ns(2.0),
    );
    assert!(matches!(trans, FsmTransition::DetachIdle));
}

#[test]
fn fsm_attached_swap_to_new_target() {
    // Grab arriving while Attached should start pursuing the new target.
    // (The Bevy apply layer is responsible for releasing the previous joint.)
    let state: GrabState<f32> = GrabState::Attached {
        target: "mug".into(),
        prop_entity: 42,
    };
    let cmd = GrabOrRelease::Grab(GrabCmd {
        hand: Hand::Right,
        target: "ball".into(),
        palm_offset_override: None,
    });
    let trans = step_fsm(
        &state,
        within([0.0, 0.0, 0.0], None, 0.05),
        ns(0.016),
        Some(&cmd),
        Hand::Right,
        ns(2.0),
    );
    assert!(matches!(
        trans,
        FsmTransition::StartPursuit { ref target, .. } if target == "ball"
    ));
}

#[test]
fn fsm_grab_propagates_palm_override() {
    let state = GrabState::<f32>::Idle;
    let cmd = GrabOrRelease::Grab(GrabCmd {
        hand: Hand::Right,
        target: "mug".into(),
        palm_offset_override: Some([0.1, 0.2, 0.3]),
    });
    let trans = step_fsm(
        &state,
        within([0.0, 0.0, 0.0], None, 0.05),
        ns(0.016),
        Some(&cmd),
        Hand::Right,
        ns(2.0),
    );
    match trans {
        FsmTransition::StartPursuit { palm_override, .. } => {
            assert_eq!(palm_override, Some([0.1, 0.2, 0.3]));
        }
        other => panic!("expected StartPursuit, got {:?}", other),
    }
}

#[test]
fn fsm_ignores_other_hand_cmds() {
    let state = GrabState::<f32>::Idle;
    let cmd = GrabOrRelease::Grab(GrabCmd {
        hand: Hand::Left,
        target: "mug".into(),
        palm_offset_override: None,
    });
    let trans = step_fsm(
        &state,
        within([0.0, 0.0, 0.0], None, 0.05),
        ns(0.016),
        Some(&cmd),
        Hand::Right,
        ns(2.0),
    );
    assert!(matches!(trans, FsmTransition::NoChange));
}

#[test]
fn fsm_pursuing_to_attached_with_custom_proximity() {
    // Wrist 8cm from grasp; default 5cm gate → NoChange; 10cm gate → Attach.
    let state: GrabState<f32> = GrabState::Pursuing {
        target: "mug".into(),
        elapsed_ns: ns(0.5),
        palm_override: None,
    };
    let trans_default = step_fsm(
        &state,
        within([0.0, 1.0, 0.0], Some([0.0, 1.08, 0.0]), 0.05),
        ns(0.016),
        None,
        Hand::Right,
        ns(2.0),
    );
    assert!(matches!(trans_default, FsmTransition::NoChange));

    let trans_loose = step_fsm(
        &state,
        within([0.0, 1.0, 0.0], Some([0.0, 1.08, 0.0]), 0.10),
        ns(0.016),
        None,
        Hand::Right,
        ns(2.0),
    );
    assert!(matches!(trans_loose, FsmTransition::Attach { ref target } if target == "mug"));
}

fn grab(hand: Hand, target: &str) -> GrabOrRelease<f32> {
    GrabOrRelease::Grab(GrabCmd {
        hand,
        target: target.into(),
        palm_offset_override: None,
    })
}

fn report(reached: bool, wrist: Option<u64>) -> HandReport {
    HandReport { reached, wrist }
}

const PALM: [f32; 3] = [0.08, 0.0, 0.0];

fn tick(
    fsms: &mut GrabFsms<f32>,
    registry: &mut PropRegistry,
    cmds: Vec<GrabOrRelease<f32>>,
    left: HandReport,
    right: HandReport,
) -> Vec<JointAction<f32>> {
    handle_grab_cmds(fsms, registry, &cmds, left, right, PALM, ns(0.5), ns(2.0))
}

#[test]
fn a_grab_runs_from_pursuit_to_release() {
    let mut fsms: GrabFsms<f32> = GrabFsms::default();
    let mut registry = PropRegistry::new();
    registry.insert("mug".into(), 7);
    let far = report(false, Some(21));
    let a = tick(&mut fsms, &mut registry, vec![grab(Hand::Right, "mug")], far, far);
    assert!(a.is_empty());
    assert!(matches!(
        fsms.right,
        GrabState::Pursuing { elapsed_ns: 0, .. }
    ));
    let a = tick(&mut fsms, &mut registry, vec![], far, far);
    assert!(a.is_empty());
    assert!(matches!(
        fsms.right,
        GrabState::Pursuing { elapsed_ns: 500_000_000, .. }
    ));
    let a = tick(&mut fsms, &mut registry, vec![], far, report(true, Some(21)));
    assert_eq!(a.len(), 1);
    assert!(matches!(
        a[0],
        JointAction::Attach { prop: 7, wrist: 21, palm } if palm == PALM
    ));
    assert_eq!(attached_hand_for(&fsms, "mug"), Some(Hand::Right));
    assert_eq!(attached_hand_for(&fsms, "ball"), None);
    let a = tick(
        &mut fsms,
        &mut registry,
        vec![GrabOrRelease::Release(Hand::Right)],
        far,
        far,
    );
    assert!(matches!(a[0], JointAction::Release { prop: 7 }));
    assert!(matches!(fsms.right, GrabState::Idle));
    assert!(!registry.has_failures());
}

#[test]
fn a_pursuit_that_takes_too_long_fails_once() {
    let mut fsms: GrabFsms<f32> = GrabFsms::default();
    let mut registry = PropRegistry::new();
    registry.insert("mug".into(), 7);
    let far = report(false, None);
    tick(&mut fsms, &mut registry, vec![grab(Hand::Left, "mug")], far, far);
    for _ in 0..3 {
        tick(&mut fsms, &mut registry, vec![], far, far);
        assert!(matches!(fsms.left, GrabState::Pursuing { .. }));
    }
    tick(&mut fsms, &mut registry, vec![], far, far);
    assert!(matches!(fsms.left, GrabState::Idle));
    let failures = registry.take_failures();
    assert_eq!(failures.len(), 1);
    assert_eq!(failures[0].hand, Hand::Left);
    assert_eq!(failures[0].target, "mug");
    assert_eq!(failures[0].reason, "timeout");
    assert!(!registry.has_failures());
}

#[test]
fn attaching_needs_the_prop_and_the_wrist() {
    let mut fsms: GrabFsms<f32> = GrabFsms::default();
    let mut registry = PropRegistry::new();
    let near = report(true, None);
    tick(
        &mut fsms,
        &mut registry,
        vec![grab(Hand::Left, "ghost")],
        near,
        near,
    );
    assert!(tick(&mut fsms, &mut registry, vec![], near, near).is_empty());
    registry.insert("mug".into(), 3);
    tick(
        &mut fsms,
        &mut registry,
        vec![grab(Hand::Right, "mug")],
        near,
        near,
    );
    assert!(tick(&mut fsms, &mut registry, vec![], near, near).is_empty());
    let reasons: Vec<String> = registry
        .take_failures()
        .into_iter()
        .map(|f| f.reason)
        .collect();
    assert_eq!(reasons, vec!["prop_not_found", "wrist_not_found"]);
}

#[test]
fn of_several_commands_the_latest_counts() {
    let cmds = vec![
        grab(Hand::Left, "mug"),
        grab(Hand::Right, "cup"),
        GrabOrRelease::Release(Hand::Left),
    ];
    assert!(matches!(
        latest_cmd(&cmds, Hand::Left),
        Some(GrabOrRelease::Release(Hand::Left))
    ));
    assert!(matches!(
        latest_cmd(&cmds, Hand::Right),
        Some(GrabOrRelease::Grab(g)) if g.target == "cup"
    ));
    assert!(latest_cmd::<f32>(&vec![], Hand::Left).is_none());
}

#[test]
fn a_swap_lets_go_of_the_old_prop() {
    let mut fsms: GrabFsms<f32> = GrabFsms::default();
    let mut registry = PropRegistry::new();
    fsms.left = GrabState::Attached {
        target: "mug".into(),
        prop_entity: 7,
    };
    let far = report(false, Some(20));
    let a = tick(&mut fsms, &mut registry, vec![grab(Hand::Left, "cup")], far, far);
    assert!(matches!(a[0], JointAction::Release { prop: 7 }));
    assert!(matches!(&fsms.left, GrabState::Pursuing { target, .. } if target == "cup"));
}

#[test]
fn a_stored_palm_offset_is_used() {
    let mut fsms: GrabFsms<f32> = GrabFsms::default();
    let mut registry = PropRegistry::new();
    registry.insert("mug".into(), 7);
    fsms.left = GrabState::Pursuing {
        target: "mug".into(),
        elapsed_ns: 0,
        palm_override: Some([1.0, 2.0, 3.0]),
    };
    let a = tick(
        &mut fsms,
        &mut registry,
        vec![],
        report(true, Some(20)),
        report(false, None),
    );
    assert!(matches!(
        a[0],
        JointAction::Attach { palm, .. } if palm == [1.0, 2.0, 3.0]
    ));
}

#[test]
fn a_replaced_prop_leaves_the_hand() {
    let mut fsms: GrabFsms<f32> = GrabFsms::default();
    let mut registry = PropRegistry::new();
    registry.insert("mug".into(), 7);
    registry.insert("cup".into(), 8);
    fsms.right = GrabState::Attached {
        target: "mug".into(),
        prop_entity: 7,
    };
    assert_eq!(displace_prop(&mut fsms, &mut registry, "mug"), Some(7));
    assert!(matches!(fsms.right, GrabState::Idle));
    let f = registry.take_failures();
    assert_eq!(f.len(), 1);
    assert_eq!(f[0].reason, "prop_replaced");
    assert_eq!(f[0].hand, Hand::Right);
    assert_eq!(displace_prop(&mut fsms, &mut registry, "cup"), Some(8));
    assert!(!registry.has_failures());
    assert_eq!(displace_prop(&mut fsms, &mut registry, "cup"), None);
    assert_eq!(registry.len(), 0);
}

#[test]
fn a_replaced_prop_leaves_both_hands() {
    let mut fsms: GrabFsms<f32> = GrabFsms::default();
    let mut registry = PropRegistry::new();
    registry.insert("mug".into(), 7);
    registry.insert("cup".into(), 8);
    let held = || GrabState::Attached {
        target: "mug".to_string(),
        prop_entity: 7,
    };
    fsms.left = held();
    fsms.right = held();
    assert_eq!(displace_prop(&mut fsms, &mut registry, "mug"), Some(7));
    assert!(matches!(fsms.left, GrabState::Idle));
    assert!(matches!(fsms.right, GrabState::Idle));
    let f = registry.take_failures();
    let seen: Vec<(Hand, &str, &str)> = f
        .iter()
        .map(|f| (f.hand, f.target.as_str(), f.reason.as_str()))
        .collect();
    assert_eq!(
        seen,
        vec![
            (Hand::Left, "mug", "prop_replaced"),
            (Hand::Right, "mug", "prop_replaced")
        ]
    );
    assert_eq!(registry.get("cup"), Some(8));
    // A hand that pursues the prop goes after the new one.
    registry.insert("mug".into(), 9);
    fsms.left = GrabState::Pursuing {
        target: "mug".into(),
        elapsed_ns: 3,
        palm_override: None,
    };
    assert_eq!(displace_prop(&mut fsms, &mut registry, "mug"), Some(9));
    assert!(matches!(fsms.left, GrabState::Pursuing { elapsed_ns: 3, .. }));
    assert!(!registry.has_failures());
}

#[test]
fn the_registry_is_a_map() {
    let mut registry = PropRegistry::new();
    assert_eq!(registry.get("a"), None);
    registry.insert("a".into(), 1);
    registry.insert("b".into(), 2);
    registry.insert("a".into(), 3);
    assert_eq!(registry.len(), 2);
    assert_eq!(registry.get("a"), Some(3));
    assert_eq!(registry.get("b"), Some(2));
    assert_eq!(registry.remove("a"), Some(3));
    assert_eq!(registry.remove("a"), None);
    assert_eq!(registry.get("b"), Some(2));
}

#[test]
fn the_scene_is_reported_only_when_there_is_something_to_say() {
    let mut registry = PropRegistry::new();
    let mut fsms: GrabFsms<f32> = GrabFsms::default();
    assert!(publish_scene_state(&mut registry, &fsms, vec![], Some(5)).is_none());
    registry.fail(Hand::Left, "mug".into(), "timeout");
    let s = publish_scene_state(&mut registry, &fsms, vec![], Some(5)).unwrap();
    assert_eq!(s.failed_grabs.len(), 1);
    assert_eq!(s.failed_grabs[0].target, "mug");
    assert_eq!(s.pts_ms, 5);
    assert!(publish_scene_state(&mut registry, &fsms, vec![], None).is_none());
    fsms.left = GrabState::Attached {
        target: "mug".into(),
        prop_entity: 1,
    };
    fsms.right = GrabState::Attached {
        target: "cup".into(),
        prop_entity: 2,
    };
    let prop = PropSnapshot {
        id: "mug".into(),
        transform: [[0.0f32; 4]; 4],
        aabb_min: [0.0; 3],
        aabb_max: [1.0; 3],
        grasp_world: None,
        loading: false,
    };
    let s = publish_scene_state(&mut registry, &fsms, vec![prop], None).unwrap();
    assert_eq!(s.pts_ms, 0);
    assert_eq!(s.props.len(), 1);
    assert_eq!(s.props[0].id, "mug");
    assert_eq!(s.grabs.len(), 2);
    assert_eq!((s.grabs[0].hand, s.grabs[0].prop.as_str()), (Hand::Left, "mug"));
    assert_eq!((s.grabs[1].hand, s.grabs[1].prop.as_str()), (Hand::Right, "cup"));
}

#[test]
fn only_meshes_load_later() {
    assert!(loads_later(&PropShape::MeshGlb {
        path: "a.glb".into(),
        scale: 1.0f32
    }));
    assert!(!loads_later(&PropShape::Sphere { radius: 1.0f32 }));
    assert!(!loads_later(&PropShape::Box {
        half_extents: [1.0f32; 3]
    }));
    assert!(!loads_later(&PropShape::Capsule {
        radius: 1.0f32,
        half_height: 1.0
    }));
}
