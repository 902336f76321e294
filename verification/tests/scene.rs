//! Scene files, bones, camera and readiness.
use cc_render::bind::{BindCapture, BoneRest};
use cc_render::camera::{focus_spec, parse_triplet, FitGate};
use cc_render::capture::{
    average_rgb, buffer_size, is_snapshot_milestone, padded_bytes_per_row, strip_row_padding,
};
use cc_render::glb::{json_chunk_len, parse_material_names_from_glb};
use cc_render::hierarchy::{
    ancestor_name, is_descendant_of_any, is_under_avatar, under_avatar,
};
use cc_render::json::Num;
use cc_render::motion::{placement, Placement};
use cc_render::oneshot::OneShot;
use cc_render::ready::{ReadyMonitor, SceneReport};
use cc_render::renderer::SkeletalPose;
use cc_render::skeleton::{
    find_bones, find_face_bones, find_first, find_last, DriveStep, QueueItem, SkeletalDriver,
};
use cc_render::smpl;

fn glb(kind: &[u8; 4], chunk: &[u8]) -> Vec<u8> {
    let mut f = b"glTF\x02\x00\x00\x00\x00\x00\x00\x00".to_vec();
    f.extend((chunk.len() as u32).to_le_bytes());
    f.extend(kind);
    f.extend(chunk);
    f
}

#[test]
fn material_names_come_in_order() {
    let f = glb(
        b"JSON",
        br#"{"materials":[{"name":"Std_Skin_Head"},{},{"name":7},{"name":"Hair"}]}"#,
    );
    assert_eq!(
        parse_material_names_from_glb(&f),
        vec!["Std_Skin_Head", "", "", "Hair"]
    );
    assert_eq!(json_chunk_len(&f), Some(f.len() as u32 - 20));
}

#[test]
fn bytes_that_are_no_text_are_replaced() {
    let f = glb(b"JSON", b"{\"materials\":[{\"name\":\"a\xff\"}]}");
    assert_eq!(parse_material_names_from_glb(&f), vec!["a\u{fffd}"]);
}

#[test]
fn broken_files_have_no_materials() {
    assert!(parse_material_names_from_glb(&[]).is_empty());
    let wrong = glb(b"BIN\0", br#"{"materials":[{"name":"a"}]}"#);
    assert!(parse_material_names_from_glb(&wrong).is_empty());
    assert_eq!(json_chunk_len(&wrong), None);
    let mut cut = glb(b"JSON", br#"{"materials":[{"name":"a"}]}"#);
    cut.pop();
    assert!(parse_material_names_from_glb(&cut).is_empty());
    assert!(parse_material_names_from_glb(&glb(b"JSON", b"{")).is_empty());
    assert!(parse_material_names_from_glb(&glb(b"JSON", b"{}")).is_empty());
    assert!(parse_material_names_from_glb(&glb(b"JSON", br#"{"materials":{}}"#)).is_empty());
}

#[test]
fn rows_are_padded_to_whole_blocks() {
    assert_eq!(padded_bytes_per_row(1), 256);
    assert_eq!(padded_bytes_per_row(64), 256);
    assert_eq!(padded_bytes_per_row(65), 512);
    assert_eq!(padded_bytes_per_row(1280), 5120);
    assert_eq!(padded_bytes_per_row(0), 0);
    assert_eq!(buffer_size(1, 3), 768);
    let mut padded = vec![0u8; 512];
    padded[0..4].copy_from_slice(&[1, 2, 3, 4]);
    padded[256..260].copy_from_slice(&[5, 6, 7, 8]);
    assert_eq!(strip_row_padding(&padded, 1, 2), vec![1, 2, 3, 4, 5, 6, 7, 8]);
}

#[test]
fn the_sample_of_a_picture_is_its_start() {
    assert_eq!(average_rgb(&vec![]), (0, 0, 0));
    assert_eq!(average_rgb(&vec![10, 20, 30, 0, 20, 40, 61, 0]), (15, 30, 45));
    let mut long = vec![7u8; 64 * 4];
    long.extend([255u8; 400]);
    assert_eq!(average_rgb(&long), (7, 7, 7));
    let kept: Vec<u64> = (0..5000).filter(|n| is_snapshot_milestone(*n)).collect();
    assert_eq!(kept, vec![1, 30, 120, 300, 600, 900, 1200, 1800, 2400, 3000]);
}

fn up(e: u64) -> Option<u64> {
    match e {
        0 | 100 => None,
        _ => Some(e - 1),
    }
}

#[test]
fn ancestors_are_searched_to_a_limit() {
    assert!(is_descendant_of_any(5, &up, &vec![0]));
    assert!(is_descendant_of_any(0, &up, &vec![0]));
    assert!(!is_descendant_of_any(5, &up, &vec![]));
    assert!(!is_descendant_of_any(5, &up, &vec![100]));
    assert!(is_descendant_of_any(64, &up, &vec![0]));
    assert!(!is_descendant_of_any(65, &up, &vec![0]));
    assert!(is_under_avatar(5, &up, &vec![]));
    assert!(!is_under_avatar(105, &up, &vec![0]));
    // A cycle ends the walk all the same.
    assert!(!is_descendant_of_any(1, &|_: u64| Some(2), &vec![9]));
    let named = vec![(3, "a".to_string()), (103, "b".to_string())];
    assert_eq!(under_avatar(&named, &up, &vec![0]), vec![(3, "a".to_string())]);
    assert_eq!(under_avatar(&named, &up, &vec![]).len(), 2);
}

#[test]
fn the_nearest_named_ancestor_counts() {
    let name = |e: u64| if e % 10 == 0 { Some(format!("n{e}")) } else { None };
    assert_eq!(ancestor_name(25, &up, &name), Some("n20".to_string()));
    assert_eq!(ancestor_name(20, &up, &name), Some("n10".to_string()));
    assert_eq!(ancestor_name(0, &up, &name), None);
    let rare = |e: u64| if e == 0 { Some("root".to_string()) } else { None };
    assert_eq!(ancestor_name(32, &up, &rare), Some("root".to_string()));
    assert_eq!(ancestor_name(33, &up, &rare), None);
}

fn rig() -> Vec<(u64, String)> {
    (0..22)
        .map(|i| (i as u64 + 100, smpl::cc5_name(i).to_string()))
        .collect()
}

#[test]
fn bones_are_found_all_together() {
    let mut r = rig();
    assert_eq!(find_bones(&r).unwrap()[3], 103);
    r.push((999, "CC_Base_Waist".to_string()));
    assert_eq!(find_bones(&r).unwrap()[3], 999);
    assert_eq!(find_last(&r, "CC_Base_Waist"), Some(999));
    assert_eq!(find_first(&r, "CC_Base_Waist"), Some(103));
    r.remove(0);
    assert!(find_bones(&r).is_none());
}

#[test]
fn the_face_needs_a_jaw_only() {
    let mut named = vec![(1, "CC_Base_L_Eye".to_string())];
    assert!(find_face_bones(&named).is_none());
    named.push((2, "CC_Base_JawRoot".to_string()));
    named.push((3, "CC_Base_JawRoot".to_string()));
    named.push((4, "CC_Base_Tongue03".to_string()));
    let f = find_face_bones(&named).unwrap();
    assert_eq!(f.jaw_root, 2);
    assert_eq!(f.l_eye, Some(1));
    assert_eq!(f.r_eye, None);
    assert_eq!(f.tongue3, Some(4));
}

fn pose(x: u64) -> SkeletalPose {
    SkeletalPose {
        root_pos: [Num::Unsigned(x), Num::Unsigned(0), Num::Unsigned(0)],
        pts_ms: x,
        ..SkeletalPose::rest()
    }
}

#[test]
fn poses_play_in_order_and_the_last_is_held() {
    let mut d = SkeletalDriver::default();
    assert!(matches!(d.step(QueueItem::Empty), DriveStep::Nothing));
    assert!(matches!(d.step(QueueItem::Clear), DriveStep::Nothing));
    match d.step(QueueItem::Pose(pose(5))) {
        DriveStep::Apply { pose, anchor, pause } => {
            assert_eq!(pose.pts_ms, 5);
            assert_eq!(anchor[0], Num::Unsigned(5));
            assert!(pause);
        }
        _ => panic!("expected a pose"),
    }
    match d.step(QueueItem::Pose(pose(6))) {
        DriveStep::Apply { pose, anchor, pause } => {
            assert_eq!(pose.pts_ms, 6);
            assert_eq!(anchor[0], Num::Unsigned(5));
            assert!(!pause);
        }
        _ => panic!("expected a pose"),
    }
    assert!(matches!(
        d.step(QueueItem::Empty),
        DriveStep::Apply { pose, pause: false, .. } if pose.pts_ms == 6
    ));
    assert!(matches!(d.step(QueueItem::Clear), DriveStep::Rest));
    assert!(matches!(d.step(QueueItem::Empty), DriveStep::Nothing));
    assert!(matches!(
        d.step(QueueItem::Pose(pose(9))),
        DriveStep::Apply { anchor, pause: true, .. } if anchor[0] == Num::Unsigned(9)
    ));
}

fn rest_of(e: u64) -> Option<BoneRest<i64>> {
    Some(BoneRest {
        own: e as i64,
        above: 1000 * e as i64,
    })
}

fn note(
    bind: &mut BindCapture<i64>,
    named: &Vec<(u64, String)>,
    rest: &impl Fn(u64) -> Option<BoneRest<i64>>,
) -> bool {
    bind.capture(
        named,
        &|e: u64| if e >= 900 { None } else { Some(900) },
        &vec![900],
        rest,
        0,
        &|a: i64, b: i64| a + b,
        &|a: i64| -a,
    )
}

#[test]
fn the_bind_pose_is_noted_once() {
    let mut bind: BindCapture<i64> = BindCapture::default();
    let mut named = rig();
    let last = named.pop().unwrap();
    assert!(!note(&mut bind, &named, &rest_of));
    named.push((905, last.1.clone()));
    // That bone is not one of the avatar's.
    assert!(!note(&mut bind, &named, &rest_of));
    named.push(last);
    assert!(!note(&mut bind, &named, &|e| if e == 107 { None } else { rest_of(e) }));
    assert!(bind.pose.is_none());
    assert!(note(&mut bind, &named, &rest_of));
    let pose = bind.pose.unwrap();
    assert_eq!(pose.entities[3], 103);
    assert_eq!(pose.data.own_rest_local[3], 103);
    assert_eq!(pose.data.parent_chain_rest[3], 103_000);
    assert_eq!(pose.data.cc5_rest_world[3], 103_103);
    assert_eq!(pose.data.inter_rest[0], 0);
    assert_eq!(pose.data.inter_rest[3], 103_000 - 100_100);
    assert!(!note(&mut bind, &named, &|e| rest_of(e + 1)));
    assert_eq!(bind.pose.unwrap().data.own_rest_local[3], 103);
}

#[test]
fn the_end_of_a_stream_is_the_bind_pose() {
    let mut bind: BindCapture<i64> = BindCapture::default();
    note(&mut bind, &rig(), &rest_of);
    let data = bind.pose.unwrap().data;
    let posed = |p: SkeletalPose, _: [Num; 3]| Placement {
        rotations: [p.pts_ms as i64; 22],
        root: 7,
    };
    let mut d = SkeletalDriver::default();
    let step = d.step(QueueItem::Pose(pose(5)));
    let p = placement(step, &data, 42, &posed).unwrap();
    assert_eq!((p.rotations, p.root), ([5; 22], 7));
    let step = d.step(QueueItem::Clear);
    let p = placement(step, &data, 42, &posed).unwrap();
    assert_eq!((p.rotations, p.root), (data.own_rest_local, 42));
    let step = d.step(QueueItem::Empty);
    assert!(placement(step, &data, 42, &posed).is_none());
}

#[test]
fn a_scene_is_ready_after_it_has_settled() {
    let report = SceneReport {
        captured: true,
        scenes: 1,
        deps_loaded: true,
        meshes: 27,
        materials: 9,
    };
    let mut m = ReadyMonitor::default();
    assert!(!m.watch(SceneReport { captured: false, ..report }));
    let mut ticks = 0;
    while !m.watch(report) {
        ticks += 1;
        assert!(ticks < 1000);
    }
    // One tick to see the counts, seven more until they are stable, then sixty.
    assert_eq!(ticks, 67);
    assert!(!m.watch(report));
    let mut m = ReadyMonitor::default();
    for _ in 0..60 {
        m.watch(report);
    }
    m.watch(SceneReport { meshes: 28, ..report });
    for _ in 0..67 {
        assert!(!m.watch(SceneReport { meshes: 27, ..report }));
    }
    assert!(m.watch(report));
    let mut m = ReadyMonitor::default();
    for _ in 0..200 {
        assert!(!m.watch(SceneReport { deps_loaded: false, ..report }));
        assert!(!m.watch(SceneReport { scenes: 0, ..report }));
    }
}

#[test]
fn focus_presets_go_by_name() {
    assert!(focus_spec(None).is_none());
    assert!(focus_spec(Some("  ")).is_none());
    assert!(focus_spec(Some("elbow")).is_none());
    let face = focus_spec(Some(" FACE ")).unwrap();
    assert_eq!(face.joints, vec![15]);
    assert_eq!(
        (face.pad_below_cm, face.pad_above_cm, face.pad_horiz_cm),
        (5, 28, 16)
    );
    assert!(!face.view_from_back);
    let head = focus_spec(Some("head")).unwrap();
    assert_eq!(head.joints, vec![12, 15]);
    assert_eq!(
        (head.pad_below_cm, head.pad_above_cm, head.pad_horiz_cm),
        (5, 32, 20)
    );
    let rear = focus_spec(Some("glutes")).unwrap();
    assert_eq!(rear.joints, vec![0, 1, 2]);
    assert!(rear.view_from_back);
    for alias in ["upper", "upper_body", "upper-body"] {
        assert_eq!(focus_spec(Some(alias)).unwrap().joints.len(), 12);
    }
    for (name, joints) in [
        ("neck", vec![12, 15]),
        ("torso", vec![0, 3, 6, 9, 12]),
        ("arms", vec![16, 17, 18, 19, 20, 21]),
        ("larm", vec![16, 18, 20]),
        ("right_arm", vec![17, 19, 21]),
        ("legs", vec![1, 2, 4, 5, 7, 8, 10, 11]),
        ("l_leg", vec![1, 4, 7, 10]),
        ("rleg", vec![2, 5, 8, 11]),
        ("hands", vec![20, 21]),
        ("lhand", vec![20]),
        ("r_hand", vec![21]),
        ("hips", vec![0]),
        ("feet", vec![10, 11]),
        ("shoulders", vec![13, 14, 16, 17]),
        ("bust", vec![9, 13, 14]),
    ] {
        assert_eq!(focus_spec(Some(name)).unwrap().joints, joints, "{name}");
    }
}

#[test]
fn triplets_are_read_between_commas() {
    let parse = |s: &str| s.parse::<f32>().ok();
    assert_eq!(parse_triplet("1,2,3", &parse), Some((1.0, 2.0, 3.0)));
    assert_eq!(parse_triplet(" 1 ,\t-2.5, 3e1\n", &parse), Some((1.0, -2.5, 30.0)));
    assert_eq!(parse_triplet("1,2", &parse), None);
    assert_eq!(parse_triplet("1,2,3,4", &parse), None);
    assert_eq!(parse_triplet("1,,3", &parse), None);
    assert_eq!(parse_triplet("", &parse), None);
}

#[test]
fn the_camera_is_fitted_once() {
    let mut g = FitGate::default();
    assert!(!g.poll(true, false));
    for _ in 0..5 {
        assert!(!g.poll(true, true));
    }
    assert!(g.poll(true, true));
    assert!(g.poll(true, true));
    g.finish();
    assert!(!g.poll(true, true));
    let mut off = FitGate::default();
    assert!(!off.poll(false, true));
    assert!(!off.poll(true, true));
    assert!(off.done);
}

#[test]
fn some_work_is_done_once() {
    let mut o = OneShot::default();
    assert!(!o.fire(false));
    assert!(o.fire(true));
    assert!(!o.fire(true));
}
