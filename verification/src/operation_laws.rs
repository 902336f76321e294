//! What holds of single operations, told by what goes in and what comes out.
use crate::arkit;
use crate::arkit::BlendshapeFrame;
use crate::audio::AudioBuf;
use crate::camera;
use crate::camera::{BodyPart, FitGate, FocusPreset, FollowCamera};
use crate::camera_laws;
use crate::capture;
use crate::cc5_json;
use crate::cc5_json::Cc5Physics;
use crate::cc5_query;
use crate::colliders;
use crate::colliders::ColliderPlan;
use crate::config::{GrabConfig, PhysicsConfig, PlayVolume, RendererConfig};
use crate::data_laws;
use crate::envelope;
use crate::envelope::RendererInput;
use crate::envelope_laws;
use crate::face;
use crate::face::Axis;
use crate::face_laws;
use crate::glb;
use crate::grab::GrabFsms;
use crate::json;
use crate::json::{Json, JsonView, Num};
use crate::manifest::{CcRenderManifestParams, CcRenderNodeFactory};
use crate::morph_map;
use crate::morph_map::{ArkitMap, MapError};
use crate::node::{CcRenderConfig, CcRenderNode};
use crate::oneshot::OneShot;
use crate::overlay;
use crate::overlay::{Category, JointDebugConfig, PhysicsDebugConfig, Rgb};
use crate::path_laws;
use crate::paths;
use crate::picture_laws;
use crate::props;
use crate::props::{MeshStep, PropRegistry};
use crate::ready::{ReadyMonitor, SceneReport};
use crate::renderer;
use crate::renderer::{ArkitPose, GrabFailure, Hand, PropShape, SceneState, SkeletalPose};
use crate::retarget;
use crate::retarget::RetargetMode;
use crate::retarget_laws;
use crate::scene_laws;
use crate::secondary;
use crate::sidecar;
use crate::sidecar::{BodyColliderOverride, SidecarError, SidecarRaw};
use crate::skeleton;
use crate::skeleton::{DriveStep, FaceBones, QueueItem, SkeletalDriver};
use crate::skeleton_laws;
use crate::smpl;
use crate::text;
use crate::text_laws;
use crate::world::GroundFinder;
use vstd::prelude::*;

verus! {

/// Work is done in the first call that finds it ready, and never again.
pub proof fn law_fires_when_first_ready(s: &mut OneShot, ready: bool, r: bool)
    requires
        call_ensures(OneShot::fire, (s, ready), r),
    ensures
        old(s).done ==> !r && final(s).done,
        !ready ==> !r && final(s).done == old(s).done,
        ready && !old(s).done ==> r && final(s).done,
{
}

/// The camera is fitted from the sixth enabled tick after the bind pose on, until it
/// is done; a gate that is not enabled is done for good.
pub proof fn law_fit_gate(g: &mut FitGate, enabled: bool, captured: bool, r: bool)
    requires
        call_ensures(FitGate::poll, (g, enabled, captured), r),
    ensures
        old(g).done ==> !r && final(g).done,
        !enabled ==> !r && final(g).done,
        !captured ==> !r,
        !old(g).done && enabled && captured ==> !final(g).done && r == (old(g).settle_ticks >= 5),
        !old(g).done && enabled && !captured ==> final(g).settle_ticks == old(g).settle_ticks,
        !old(g).done && enabled && captured && old(g).settle_ticks < u32::MAX
            ==> final(g).settle_ticks == old(g).settle_ticks + 1,
{
}

/// The floor is searched for where its height is not given.
pub proof fn law_ground_is_searched(is_given: bool, r: GroundFinder)
    requires
        call_ensures(GroundFinder::new, (is_given,), r),
    ensures
        r.searching == !is_given,
{
}

/// A scene becomes ready in the tick in which it is stable for at least eight ticks and
/// settled for sixty, and in no other.
pub proof fn law_watch(m: &mut ReadyMonitor, report: SceneReport, r: bool)
    requires
        call_ensures(ReadyMonitor::watch, (m, report), r),
    ensures
        ({
            let complete = report.captured && report.scenes >= 1 && report.deps_loaded;
            let same = report.meshes == old(m).last_mesh_count && report.materials
                == old(m).last_material_count;
            &&& r == (!old(m).fired && complete && same && old(m).stable_count_ticks >= 7
                && old(m).settled_frames >= 59)
            &&& final(m).fired == (old(m).fired || r)
            &&& !old(m).fired && !complete ==> final(m).settled_frames == 0
            &&& !old(m).fired && complete && !same ==> final(m).settled_frames == 0
                && final(m).stable_count_ticks == 0 && final(m).last_mesh_count == report.meshes
                && final(m).last_material_count == report.materials
        }),
{
}

/// One tick of the body stream: a pose is put on, an empty queue holds the last one, and
/// the end of the stream brings a driven avatar to rest.
pub proof fn law_drive_step(d: &mut SkeletalDriver, item: QueueItem, r: DriveStep)
    requires
        call_ensures(SkeletalDriver::step, (d, item), r),
    ensures
        item matches QueueItem::Pose(p) ==> {
            &&& r matches DriveStep::Apply { pose, anchor, pause } && pose == p && pause
                == !old(d).active && final(d).anchor == Some(anchor)
            &&& final(d).active && final(d).last_pose == Some(p)
            &&& !old(d).active ==> final(d).anchor == Some(p.root_pos)
            &&& old(d).active && old(d).anchor is Some ==> final(d).anchor == old(d).anchor
        },
        item is Clear ==> {
            &&& !final(d).active && final(d).last_pose is None
            &&& r is Rest == old(d).active
            &&& r is Nothing == !old(d).active
        },
        item is Empty && old(d).last_pose is None ==> r is Nothing && *final(d) == *old(d),
        item is Empty ==> (old(d).last_pose matches Some(p) ==> (r matches DriveStep::Apply {
            pose,
            ..
        } && pose == p)),
{
}

/// A part of the body is found by its name in any case, and a setting frames it.
pub proof fn law_focus_by_name(s: &str, r: Option<FocusPreset>)
    requires
        call_ensures(camera::focus_spec, (Some(s),), r),
    ensures
        ({
            let key = text::ascii_lower(text::trimmed(s@));
            &&& key == "face"@ ==> (r matches Some(p) && p.joints@ == seq![15usize]
                && p.pad_above_cm == 28 && !p.view_from_back)
            &&& key == "butt"@ ==> (r matches Some(p) && p.joints@ == seq![0usize, 1, 2]
                && p.view_from_back)
            &&& key == "left_hand"@ ==> (r matches Some(p) && p.joints@ == seq![20usize])
            &&& camera::part_named(key) is None ==> r is None
            &&& camera::part_named(key) matches Some(part) ==> (r matches Some(p) && p@
                == camera::preset_for(part))
        }),
{
    camera_laws::law_body_part_names();
    camera_laws::law_frames();
}

/// Without a setting nothing is framed.
pub proof fn law_no_focus_without_a_setting(r: Option<FocusPreset>)
    requires
        call_ensures(camera::focus_spec, (None::<&str>,), r),
    ensures
        r is None,
{
}

/// The preset of a part and the part of a name are those of the tables.
pub proof fn law_preset_and_part(part: BodyPart, p: FocusPreset, name: &str, r: Option<BodyPart>)
    requires
        call_ensures(camera::preset_of, (part,), p),
        call_ensures(camera::body_part, (name,), r),
    ensures
        p.joints@ == camera::preset_for(part).joints,
        p.pad_below_cm == camera::preset_for(part).below,
        p.pad_above_cm == camera::preset_for(part).above,
        p.pad_horiz_cm == camera::preset_for(part).horiz,
        p.view_from_back == (part == BodyPart::Butt),
        r == camera::part_named(text::ascii_lower(name@)),
{
}

/// The jaw opens about `x` unless the setting is `y` or `z`.
pub proof fn law_jaw_axis(s: &str, r: Axis, none: Axis)
    requires
        call_ensures(face::jaw_axis, (Some(s),), r),
        call_ensures(face::jaw_axis, (None::<&str>,), none),
    ensures
        none == Axis::X,
        s@ == "y"@ ==> r == Axis::Y,
        s@ == "z"@ ==> r == Axis::Z,
        s@ != "y"@ && s@ != "z"@ ==> r == Axis::X,
{
    face_laws::law_jaw_axis_and_tongue_shares(s@);
}

/// The mode of retargeting is chained unless a setting names another.
pub proof fn law_retarget_mode(s: &str, r: RetargetMode, none: RetargetMode)
    requires
        call_ensures(retarget::retarget_mode, (Some(s),), r),
        call_ensures(retarget::retarget_mode, (None::<&str>,), none),
    ensures
        none == RetargetMode::AxisMatchChained,
        s@ == "local"@ ==> r == RetargetMode::Local,
        s@ == "axis_match"@ ==> r == RetargetMode::AxisMatch,
        s@ == "axis_match_chained"@ ==> r == RetargetMode::AxisMatchChained,
        s@ != "local"@ && s@ != "axis_match"@ && s@ != "axis_match_chained"@ ==> r
            == RetargetMode::World,
{
    retarget_laws::law_mode_names(s@);
}

/// The tables of joints, as they are asked.
pub proof fn law_joint_tables(
    i: usize,
    above: Option<usize>,
    below: Option<usize>,
    axis: [i8; 3],
    name: &'static str,
    bone: &'static str,
)
    requires
        i < 22,
        call_ensures(smpl::parent, (i,), above),
        call_ensures(smpl::primary_child, (i,), below),
        call_ensures(smpl::bone_axis, (i,), axis),
        call_ensures(smpl::smpl_name, (i,), name),
        call_ensures(smpl::cc5_name, (i,), bone),
    ensures
        i == 0 ==> above is None,
        i > 0 ==> (above matches Some(p) && p == retarget_laws::joint_above(i as int)),
        below is None == retarget_laws::ends_a_limb(i as int),
        below matches Some(c) ==> retarget_laws::joint_above(c as int) == i,
        i == 0 ==> below == Some(3usize),
        i == 9 ==> below == Some(12usize),
        axis@ == smpl::axis_of(i as int),
        name@ == smpl::name_of(i as int),
        bone@ == smpl::bone_of(i as int),
{
    retarget_laws::law_joint_tree(i as int);
}

/// Rows of the copy buffer, the buffer and the picture in it, byte by byte.
pub proof fn law_copy_buffer(
    width: u32,
    height: u32,
    row: u32,
    size: u64,
    view: &[u8],
    picture: Vec<u8>,
    y: int,
    x: int,
)
    requires
        call_ensures(capture::padded_bytes_per_row, (width,), row),
        call_ensures(capture::buffer_size, (width, height), size),
        call_ensures(capture::strip_row_padding, (view, width, height), picture),
        (height - 1) * row + 4 * width <= view@.len(),
        0 <= y < height,
        0 <= x < 4 * width,
    ensures
        row % 256 == 0,
        4 * width <= row < 4 * width + 256,
        size == row * height,
        picture@.len() == 4 * width * height,
        picture@[y * (4 * width) + x] == view@[y * row + x],
{
    picture_laws::law_rows_are_padded_to_256(width);
    picture_laws::law_stripping_keeps_every_byte(view@, width, height, y, x);
}

/// The means of a picture are those of its red, green and blue bytes, in this order.
pub proof fn law_means(pixels: &Vec<u8>, r: (u64, u64, u64))
    requires
        call_ensures(capture::average_rgb, (pixels,), r),
    ensures
        r.0 == capture::channel_mean(pixels@, 0),
        r.1 == capture::channel_mean(pixels@, 1),
        r.2 == capture::channel_mean(pixels@, 2),
{
}

/// The pictures that are kept for inspection.
pub proof fn law_milestones(n: u64, r: bool)
    requires
        call_ensures(capture::is_snapshot_milestone, (n,), r),
    ensures
        r <==> (n == 1 || n == 30 || n == 120 || n == 300 || n == 600 || n == 900 || n == 1200 || n
            == 1800 || n == 2400 || n == 3000),
{
    let s = seq![1u64, 30, 120, 300, 600, 900, 1200, 1800, 2400, 3000];
    assert(s[0] == 1 && s[1] == 30 && s[2] == 120 && s[3] == 300 && s[4] == 600);
    assert(s[5] == 900 && s[6] == 1200 && s[7] == 1800 && s[8] == 2400 && s[9] == 3000);
    if s.contains(n) {
        let k = choose|k: int| 0 <= k < s.len() && s[k] == n;
        assert(0 <= k < 10);
    }
}

/// Rates are taken as they are set, and as one where they are set to zero.
pub proof fn law_rates(
    c: &RendererConfig,
    fps: u32,
    ms: u64,
    p: &PhysicsConfig,
    steps: u32,
    substeps: u32,
)
    requires
        call_ensures(RendererConfig::frames_per_second, (c,), fps),
        call_ensures(RendererConfig::frame_interval_ms, (c,), ms),
        call_ensures(PhysicsConfig::steps_per_second, (p,), steps),
        call_ensures(PhysicsConfig::substeps, (p,), substeps),
    ensures
        c.fps > 0 ==> fps == c.fps,
        c.fps == 0 ==> fps == 1,
        ms * fps <= 1000 < ms * fps + fps,
        p.timestep_hz > 0 ==> steps == p.timestep_hz,
        p.timestep_hz == 0 ==> steps == 1,
        p.max_substeps_per_frame > 0 ==> substeps == p.max_substeps_per_frame,
        p.max_substeps_per_frame == 0 ==> substeps == 1,
{
    assert(ms * fps <= 1000 && 1000 < ms * fps + fps) by (nonlinear_arith)
        requires
            ms == 1000int / (fps as int),
            fps >= 1,
    ;
}

/// A node is created exactly where both asset paths are given; it has the manifest's
/// settings and has seen nothing. Else the message names the path that is missing, the
/// avatar's first.
pub proof fn law_creation<S: Copy>(
    f: &CcRenderNodeFactory,
    params: CcRenderManifestParams,
    silence: S,
    r: Result<CcRenderNode<S>, String>,
)
    requires
        call_ensures(CcRenderNodeFactory::create::<S>, (f, params, silence), r),
    ensures
        r is Ok == (params.glb_path is Some && params.arkit_map_path is Some),
        r matches Ok(node) ==> {
            &&& node.spec_silence() == silence
            &&& node@.frames == 0
            &&& node@.realtime == params.realtime_mode
            &&& node@.stream_id == params.video_stream_id@
            &&& params.framerate > 0 ==> node@.fps == params.framerate
            &&& params.framerate == 0 ==> node@.fps == 1
            &&& Some(node.spec_config().glb_path) == params.glb_path
            &&& Some(node.spec_config().arkit_map_path) == params.arkit_map_path
            &&& node.spec_config().scene_glb_path == params.scene_glb_path
            &&& params.width > 0 ==> node.spec_config().width == params.width
            &&& params.height > 0 ==> node.spec_config().height == params.height
        },
        r matches Err(e) ==> {
            &&& params.glb_path is None ==> e@
                == "CcRenderNode requires 'glb_path' (.alphabaked.glb)"@
            &&& params.glb_path is Some ==> e@
                == "CcRenderNode requires 'arkit_map_path' (resolved JSON)"@
        },
{
}

/// The patterns in force without a sidecar, and those of a section without any.
pub proof fn law_pattern_lists(built_in: Vec<String>, defaults: Vec<String>)
    requires
        call_ensures(secondary::built_in, (), built_in),
        call_ensures(sidecar::default_jiggle_patterns, (), defaults),
    ensures
        built_in@.len() == 6,
        built_in@[0]@ == "^CC_Base_Hair_.*"@,
        built_in@[1]@ == ".*Breast.*"@,
        built_in@[2]@ == "^Skirt_.*"@,
        built_in@[3]@ == "^CC_Base_Tongue.*"@,
        built_in@[4]@ == ".*Glute.*"@,
        built_in@[5]@ == ".*Buttock.*"@,
        defaults@.len() == 4,
        defaults@[0]@ == "^CC_Base_Hair_.*"@,
        defaults@[1]@ == ".*Breast.*"@,
        defaults@[2]@ == "^Skirt_.*"@,
        defaults@[3]@ == "^CC_Base_Tongue.*"@,
{
    let a = sidecar::strings_view(built_in@);
    let b = sidecar::strings_view(defaults@);
    assert(a.len() == built_in@.len() && b.len() == defaults@.len());
    assert(a[0] == built_in@[0]@ && a[1] == built_in@[1]@ && a[2] == built_in@[2]@);
    assert(a[3] == built_in@[3]@ && a[4] == built_in@[4]@ && a[5] == built_in@[5]@);
    assert(b[0] == defaults@[0]@ && b[1] == defaults@[1]@);
    assert(b[2] == defaults@[2]@ && b[3] == defaults@[3]@);
}

/// The names of the facial channels are those of the table, in order.
pub proof fn law_channel_names(names: Vec<String>, i: int)
    requires
        call_ensures(arkit::channel_names, (), names),
        0 <= i < 52,
    ensures
        names@.len() == 52,
        names@[i]@ == arkit::channels()[i],
{
    let all = names@.map_values(|s: String| s@);
    assert(all[i] == names@[i]@);
}

/// A missing file is no error and holds nothing; a file that is no JSON is an error; any
/// other physics file gives what its document says.
pub proof fn law_physics_file(
    source: Option<&str>,
    r: Result<Option<Cc5Physics>, serde_json::Error>,
)
    requires
        call_ensures(cc5_json::load, (source,), r),
    ensures
        source is None ==> (r matches Ok(x) && x is None),
        source matches Some(s) ==> {
            &&& json::parsed(s@) is None ==> r is Err
            &&& json::parsed(s@) matches Some(root) ==> (r matches Ok(Some(p)) && p@
                == cc5_json::physics_of(root))
        },
{
}

/// A missing sidecar is no error and holds nothing. A sidecar that is no JSON, is
/// ill-formed or is not of version one is an error that says so; any other gives what
/// its document says.
pub proof fn law_sidecar_file(source: Option<&str>, r: Result<Option<SidecarRaw>, SidecarError>)
    requires
        call_ensures(sidecar::load, (source,), r),
    ensures
        source is None ==> (r matches Ok(x) && x is None),
        source matches Some(s) ==> {
            &&& json::parsed(s@) is None ==> (r matches Err(SidecarError::Syntax(_)))
            &&& json::parsed(s@) matches Some(root) ==> {
                &&& sidecar::sidecar_of(root) is None ==> (r matches Err(SidecarError::IllTyped))
                &&& sidecar::sidecar_of(root) matches Some(v) ==> {
                    &&& v.version == 1 ==> (r matches Ok(Some(x)) && x@ == v)
                    &&& v.version != 1 ==> (r matches Err(SidecarError::UnsupportedVersion(n)) && n
                        == v.version)
                }
            }
        },
{
}

/// A facial map that is no JSON or is ill-formed is an error that says so; any other
/// gives what its document says.
pub proof fn law_facial_map_file(source: &str, r: Result<ArkitMap, MapError>)
    requires
        call_ensures(morph_map::load_arkit_map, (source,), r),
    ensures
        json::parsed(source@) is None ==> (r matches Err(MapError::Syntax(_))),
        json::parsed(source@) matches Some(root) ==> {
            &&& morph_map::map_of(root) is None ==> (r matches Err(MapError::IllTyped))
            &&& morph_map::map_of(root) matches Some(v) ==> (r matches Ok(m) && m@ == v)
        },
{
}

/// What a sidecar's error says.
pub proof fn law_error_words(e: &SidecarError, r: &'static str)
    requires
        call_ensures(SidecarError::message, (e,), r),
    ensures
        e is Syntax ==> r@ == "parse error"@,
        e is IllTyped ==> r@ == "invalid or missing field"@,
        e is UnsupportedVersion ==> r@ == "unsupported version (expected 1)"@,
{
}

/// The name of a file in a directory is found, and its directory.
pub proof fn law_path_is_taken_apart(
    path: &str,
    dir: Seq<char>,
    name: Seq<char>,
    f: Option<String>,
    p: Option<String>,
)
    requires
        call_ensures(paths::file_name, (path,), f),
        call_ensures(paths::parent, (path,), p),
        path@ == path_laws::beneath(dir, name),
        path_laws::names_a_file(name),
    ensures
        f matches Some(s) && s@ == name,
        path_laws::plain_dir(dir) ==> (p matches Some(d) && d@ == dir),
{
    path_laws::law_last_component(dir, name);
}

/// The physics file of an avatar lies beside it, under its name with `json` in place of
/// the extension; the sidecar where the caller says, else beside the avatar, under its
/// full name and a suffix.
pub proof fn law_files_beside_the_avatar(
    glb_path: &str,
    dir: Seq<char>,
    base: Seq<char>,
    ext: Seq<char>,
    physics: Option<String>,
    given: &str,
    explicit: String,
    implied: String,
)
    requires
        call_ensures(paths::resolve_cc5_json_path, (glb_path,), physics),
        call_ensures(paths::resolve_sidecar_path, (glb_path, Some(given)), explicit),
        call_ensures(paths::resolve_sidecar_path, (glb_path, None::<&str>), implied),
        glb_path@ == path_laws::beneath(dir, base.push('.') + ext),
        path_laws::plain_dir(dir),
        base.len() > 0,
        path_laws::one_component(base),
        path_laws::one_component(ext),
        ext.len() > 0,
        forall|i: int| 0 <= i < ext.len() ==> #[trigger] ext[i] != '.',
    ensures
        physics matches Some(s) && s@ == path_laws::beneath(dir, base + ".json"@),
        explicit@ == given@,
        implied@ == glb_path@ + ".physics.json"@,
{
    path_laws::law_physics_file_lies_beside_the_avatar(dir, base, ext);
}

/// The length of a file's JSON chunk, and the names of its materials.
pub proof fn law_materials_of_a_glb(
    file: &[u8],
    n: Option<u32>,
    names: Vec<String>,
    head: Seq<u8>,
    chunk: Seq<u8>,
    rest: Seq<u8>,
    root: JsonView,
    i: int,
)
    requires
        call_ensures(glb::json_chunk_len, (file,), n),
        call_ensures(glb::parse_material_names_from_glb, (file,), names),
        head.len() == 20,
        file@ == head + chunk + rest,
        glb::is_json_chunk(head),
        glb::le_u32(head, 12) == chunk.len(),
        json::parsed(glb::lossy(chunk)) == Some(root),
    ensures
        n == Some(chunk.len() as u32),
        names@.len() == glb::names_in(root).len(),
        0 <= i < names@.len() ==> names@[i]@ == glb::names_in(root)[i],
{
    picture_laws::law_materials_of_a_file(head, chunk, rest, root);
    let all = sidecar::strings_view(names@);
    assert(all.len() == names@.len());
    assert(0 <= i < names@.len() ==> all[i] == names@[i]@);
    assert(forall|k: int| 0 <= k < 20 ==> file@[k] == head[k]);
    assert(glb::le_u32(file@, 12) == glb::le_u32(head, 12));
}

/// A placeholder waits for its file, stays for good where the file has no mesh, and is
/// replaced where it has; only a prop out of a file has one.
pub proof fn law_placeholders<F>(
    loaded: bool,
    meshes: usize,
    step: MeshStep,
    shape: &PropShape<F>,
    later: bool,
)
    requires
        call_ensures(props::mesh_step, (loaded, meshes), step),
        call_ensures(props::loads_later::<F>, (shape,), later),
    ensures
        !loaded ==> step == MeshStep::Wait,
        loaded && meshes == 0 ==> step == MeshStep::Keep,
        loaded && meshes > 0 ==> step == MeshStep::Replace,
        later == shape is MeshGlb,
{
}

/// A prop that is listed is found under its id, one that is taken off is not; either
/// leaves the others and the failures alone.
pub proof fn law_prop_list(
    a: &mut PropRegistry,
    id: String,
    entity: u64,
    b: &mut PropRegistry,
    gone: &str,
    r: Option<u64>,
    other: Seq<char>,
)
    requires
        call_ensures(PropRegistry::insert, (a, id, entity), ()),
        call_ensures(PropRegistry::remove, (b, gone), r),
        other != id@,
        other != gone@,
    ensures
        final(a)@.by_id.dom().contains(id@),
        final(a)@.by_id[id@] == entity,
        final(a)@.by_id.dom().contains(other) == old(a)@.by_id.dom().contains(other),
        old(a)@.by_id.dom().contains(other) ==> final(a)@.by_id[other] == old(a)@.by_id[other],
        final(a)@.failures == old(a)@.failures,
        !final(b)@.by_id.dom().contains(gone@),
        old(b)@.by_id.dom().contains(gone@) ==> r == Some(old(b)@.by_id[gone@]),
        !old(b)@.by_id.dom().contains(gone@) ==> r is None,
        final(b)@.by_id.dom().contains(other) == old(b)@.by_id.dom().contains(other),
        old(b)@.by_id.dom().contains(other) ==> final(b)@.by_id[other] == old(b)@.by_id[other],
        final(b)@.failures == old(b)@.failures,
{
}

/// A failure is noted behind the others, and all that wait are handed out at once, in
/// order.
pub proof fn law_failure_list(
    a: &mut PropRegistry,
    hand: Hand,
    target: String,
    reason: &str,
    b: &mut PropRegistry,
    taken: Vec<GrabFailure>,
    i: int,
)
    requires
        call_ensures(PropRegistry::fail, (a, hand, target, reason), ()),
        call_ensures(PropRegistry::take_failures, (b,), taken),
    ensures
        ({
            let n = old(a)@.failures.len() as int;
            &&& final(a)@.failures.len() == n + 1
            &&& final(a)@.failures[n].hand == hand
            &&& final(a)@.failures[n].target == target@
            &&& final(a)@.failures[n].reason == reason@
            &&& 0 <= i < n ==> final(a)@.failures[i] == old(a)@.failures[i]
            &&& final(a)@.by_id == old(a)@.by_id
        }),
        final(b)@.failures.len() == 0,
        taken@.len() == old(b)@.failures.len(),
        0 <= i < taken@.len() ==> {
            &&& taken@[i].hand == old(b)@.failures[i].hand
            &&& taken@[i].target@ == old(b)@.failures[i].target
            &&& taken@[i].reason@ == old(b)@.failures[i].reason
        },
{
    let all = props::failures_view(taken@);
    assert(all.len() == taken@.len());
    assert(0 <= i < taken@.len() ==> all[i] == taken@[i]@);
}

/// A feature that is off by default is switched on by `1` alone, one that is on by
/// default is switched off by `0` alone.
pub proof fn law_switches(
    s: &str,
    on: bool,
    left: bool,
    no_on: bool,
    no_left: bool,
    overlay_on: PhysicsDebugConfig,
)
    requires
        call_ensures(overlay::is_switched_on, (Some(s),), on),
        call_ensures(overlay::is_left_on, (Some(s),), left),
        call_ensures(overlay::is_switched_on, (None::<&str>,), no_on),
        call_ensures(overlay::is_left_on, (None::<&str>,), no_left),
        call_ensures(PhysicsDebugConfig::from_env, (Some(s),), overlay_on),
    ensures
        on == (s@ == "1"@),
        left == (s@ != "0"@),
        !no_on,
        no_left,
        overlay_on.enabled == (s@ == "1"@),
{
}

/// A collider with several tags is a body collider first, then a jiggling one, then a
/// prop, then static; each is drawn in its colour.
pub proof fn law_overlay(b: bool, p: bool, j: bool, s: bool, c: Category, rgb: Rgb)
    requires
        call_ensures(overlay::classify, (b, p, j, s), c),
        call_ensures(Category::color, (c,), rgb),
    ensures
        b ==> rgb == (Rgb { red: 0, green: 255, blue: 255 }),
        !b && j ==> rgb == (Rgb { red: 255, green: 0, blue: 255 }),
        !b && !j && p ==> rgb == (Rgb { red: 255, green: 255, blue: 0 }),
        !b && !j && !p && s ==> rgb == (Rgb { red: 128, green: 128, blue: 128 }),
        !b && !j && !p && !s ==> rgb == (Rgb { red: 255, green: 0, blue: 0 }),
{
}

/// The collider of one joint: none where the sidecar switches it off, the sidecar's
/// where it gives one.
pub proof fn law_collider_is_planned(
    overrides: &Vec<(String, Option<BodyColliderOverride>)>,
    joint: &str,
    shapes: Option<&Vec<cc5_json::Cc5Shape>>,
    r: Option<ColliderPlan>,
    k: int,
)
    requires
        call_ensures(colliders::plan_collider, (overrides, joint, shapes), r),
        0 <= k <= overrides@.len(),
        forall|j: int| 0 <= j < k ==> (#[trigger] overrides@[j]).0@ != joint@,
        k < overrides@.len() ==> overrides@[k].0@ == joint@,
    ensures
        k < overrides@.len() && overrides@[k].1 is None ==> r is None,
        k < overrides@.len() ==> (overrides@[k].1 matches Some(o) ==> (r matches Some(
            ColliderPlan::Override(x),
        ) && x == o)),
        k == overrides@.len() && shapes is None ==> (r matches Some(p) && p is AutoFit),
        k == overrides@.len() ==> r is Some,
{
    let all = sidecar::colliders_view(overrides@);
    assert forall|j: int| 0 <= j < k implies (#[trigger] all[j]).0 != joint@ by {
        assert(all[j].0 == overrides@[j].0@);
    }
    if k < overrides@.len() {
        assert(all[k] == (overrides@[k].0@, overrides@[k].1));
    }
    scene_laws::law_first_entry_speaks(all, joint@, k);
}

/// The colliders of the body are planned joint by joint.
pub proof fn law_bodies_are_planned(
    bones: &[Option<u64>; 22],
    overrides: &Vec<(String, Option<BodyColliderOverride>)>,
    physics: Option<&Cc5Physics>,
    r: Vec<(usize, u64, ColliderPlan)>,
    i: int,
)
    requires
        call_ensures(colliders::plan_bodies, (bones, overrides, physics), r),
    ensures
        ({
            let all = colliders::body_plans(
                bones@,
                sidecar::colliders_view(overrides@),
                match physics {
                    Some(p) => Some(p@),
                    None => None,
                },
                22,
            );
            &&& r@.len() == all.len()
            &&& 0 <= i < r@.len() ==> all[i] == (r@[i].0, r@[i].1, r@[i].2@)
        }),
{
    let all = colliders::bodies_view(r@);
    assert(all.len() == r@.len());
    assert(0 <= i < r@.len() ==> all[i] == (r@[i].0, r@[i].1, r@[i].2@));
}

/// The driven bones are found where all 22 names are there, each as the last entity of
/// its name; the face is found where its jaw is, each bone as the first of its name.
pub proof fn law_bones_are_found(
    named: &Vec<(u64, String)>,
    bones: Option<[u64; 22]>,
    face: Option<FaceBones>,
    i: int,
    k: int,
)
    requires
        call_ensures(skeleton::find_bones, (named,), bones),
        call_ensures(skeleton::find_face_bones, (named,), face),
        0 <= i < 22,
    ensures
        skeleton_laws::unnamed(named@, smpl::bone_of(i)) ==> bones is None,
        skeleton_laws::last_of(named@, smpl::bone_of(i), k) ==> (bones matches Some(b) ==> b@[i]
            == named@[k].0),
        skeleton_laws::unnamed(named@, "CC_Base_JawRoot"@) ==> face is None,
        skeleton_laws::first_of(named@, "CC_Base_JawRoot"@, k) ==> (face matches Some(f)
            && f.jaw_root == named@[k].0),
        skeleton_laws::first_of(named@, "CC_Base_L_Eye"@, k) ==> (face matches Some(f) ==> f.l_eye
            == Some(named@[k].0)),
        skeleton_laws::first_of(named@, "CC_Base_R_Eye"@, k) ==> (face matches Some(f) ==> f.r_eye
            == Some(named@[k].0)),
        skeleton_laws::first_of(named@, "CC_Base_UpperJaw"@, k) ==> (face matches Some(f)
            ==> f.upper_jaw == Some(named@[k].0)),
        skeleton_laws::first_of(named@, "CC_Base_Tongue01"@, k) ==> (face matches Some(f)
            ==> f.tongue1 == Some(named@[k].0)),
        skeleton_laws::first_of(named@, "CC_Base_Tongue02"@, k) ==> (face matches Some(f)
            ==> f.tongue2 == Some(named@[k].0)),
        skeleton_laws::first_of(named@, "CC_Base_Tongue03"@, k) ==> (face matches Some(f)
            ==> f.tongue3 == Some(named@[k].0)),
{
    skeleton_laws::law_entities_by_name(named@, smpl::bone_of(i), k);
    skeleton_laws::law_every_bone_is_needed(named@, |b: int| 0int, i);
    if bones is Some {
        let b = bones->0;
        assert(Some(b@[i]) == skeleton::last_named(
            secondary::named(named@),
            smpl::bone_of(i),
        ));
    }
    skeleton_laws::law_entities_by_name(named@, "CC_Base_JawRoot"@, k);
    skeleton_laws::law_entities_by_name(named@, "CC_Base_L_Eye"@, k);
    skeleton_laws::law_entities_by_name(named@, "CC_Base_R_Eye"@, k);
    skeleton_laws::law_entities_by_name(named@, "CC_Base_UpperJaw"@, k);
    skeleton_laws::law_entities_by_name(named@, "CC_Base_Tongue01"@, k);
    skeleton_laws::law_entities_by_name(named@, "CC_Base_Tongue02"@, k);
    skeleton_laws::law_entities_by_name(named@, "CC_Base_Tongue03"@, k);
    skeleton_laws::law_face_bones_by_name(secondary::named(named@));
}

/// A text is found in another exactly where it is its middle, trimming takes white
/// space off both ends, and the pieces of a text make it again.
pub proof fn law_text_operations(
    hay: &str,
    needle: &str,
    found: bool,
    trimmed: String,
    sep: char,
    parts: Vec<String>,
    before: Seq<char>,
    after: Seq<char>,
)
    requires
        call_ensures(text::has, (hay, needle), found),
        call_ensures(text::trim, (hay,), trimmed),
        call_ensures(text::split, (hay, sep), parts),
    ensures
        hay@ == before + needle@ + after ==> found,
        found ==> exists|a: Seq<char>, b: Seq<char>| hay@ == #[trigger] (a + needle@ + b),
        exists|a: Seq<char>, b: Seq<char>|
            text_laws::blank(a) && text_laws::blank(b) && hay@ == #[trigger] (a + trimmed@ + b),
        trimmed@.len() > 0 ==> !text::is_space(trimmed@[0]) && !text::is_space(trimmed@.last()),
        parts@.len() >= 1,
        text_laws::joined(sidecar::strings_view(parts@), sep) == hay@,
{
    text_laws::law_contains_is_in_the_middle(before, needle@, after, hay@);
    text_laws::law_trimmed_is_the_core(hay@);
    text_laws::law_pieces_join_again(hay@, sep);
    assert(sidecar::strings_view(parts@) =~= text::pieces(hay@, sep));
}

/// Envelopes are decoded by their kind.
pub proof fn law_envelopes_are_decoded(
    v: &Json,
    r: Option<RendererInput>,
    a: JsonView,
    nums: Seq<Num>,
    pts: u64,
)
    requires
        call_ensures(envelope::decode_envelope, (v,), r),
    ensures
        envelope_laws::member_is(v@, "__aux_port__"@, JsonView::Str("barge_in"@)) ==> (r matches Some(
            x,
        ) && x is BargeIn),
        envelope_laws::names_kind(v@, "barge_in"@) ==> (r matches Some(x) && x is BargeIn),
        envelope_laws::names_kind(v@, "blendshapes"@) && envelope_laws::member_is(
            v@,
            "arkit_52"@,
            a,
        ) && envelope_laws::lists(a, nums) && nums.len() == 52 && envelope_laws::member_is(
            v@,
            "pts_ms"@,
            JsonView::Number(Num::Unsigned(pts)),
        ) ==> (r matches Some(RendererInput::Blendshape(f)) && f.arkit_52@ == nums && f.pts_ms
            == pts),
        envelope_laws::names_kind(v@, "skeletal_pose"@) && renderer::has_pose(v@) ==> (r matches Some(
            RendererInput::Skeletal(p),
        ) && renderer::pose_of(v@, p)),
        envelope_laws::names_kind(v@, "skeletal_pose"@) && !renderer::has_pose(v@) ==> r is None,
{
    envelope_laws::law_what_interrupts(v@);
    if envelope_laws::names_kind(v@, "blendshapes"@) && envelope_laws::member_is(
        v@,
        "arkit_52"@,
        a,
    ) && envelope_laws::lists(a, nums) && nums.len() == 52 && envelope_laws::member_is(
        v@,
        "pts_ms"@,
        JsonView::Number(Num::Unsigned(pts)),
    ) {
        envelope_laws::law_face_envelope(v@, a, nums, pts);
    }
    envelope_laws::law_kind_decides(v@);
}

/// Frames and poses are read out of documents of the right form and of no other.
pub proof fn law_documents_are_read(
    v: &Json,
    frame: Option<BlendshapeFrame>,
    pose: Option<SkeletalPose>,
)
    requires
        call_ensures(BlendshapeFrame::from_json, (v,), frame),
        call_ensures(renderer::skeletal_pose_from_json, (v,), pose),
    ensures
        frame is Some == arkit::has_frame(v@),
        frame matches Some(f) ==> arkit::frame_of(v@, f),
        pose is Some == renderer::has_pose(v@),
        pose matches Some(p) ==> renderer::pose_of(v@, p),
{
}

/// The sample queue: what is handed out comes off the front, padded with silence;
/// skipping takes off the front without counting; flushing empties it.
pub proof fn law_sample_queue<S: Copy>(
    a: &mut AudioBuf<S>,
    want: usize,
    silence: S,
    chunk: Vec<S>,
    b: &mut AudioBuf<S>,
    n: usize,
    c: &mut AudioBuf<S>,
    i: int,
)
    requires
        call_ensures(AudioBuf::<S>::drain, (a, want, silence), chunk),
        call_ensures(AudioBuf::<S>::skip, (b, n), ()),
        call_ensures(AudioBuf::<S>::flush, (c,), ()),
    ensures
        chunk@.len() == want,
        0 <= i < want && i < old(a)@.samples.len() ==> chunk@[i] == old(a)@.samples[i],
        old(a)@.samples.len() <= i < want ==> chunk@[i] == silence,
        final(a)@.emitted == old(a)@.emitted + want,
        want < old(a)@.samples.len() ==> final(a)@.samples == old(a)@.samples.skip(want as int),
        want >= old(a)@.samples.len() ==> final(a)@.samples.len() == 0,
        n < old(b)@.samples.len() ==> final(b)@.samples == old(b)@.samples.skip(n as int),
        n >= old(b)@.samples.len() ==> final(b)@.samples.len() == 0,
        final(b)@.emitted == old(b)@.emitted,
        final(c)@.samples.len() == 0,
        final(c)@.emitted == old(c)@.emitted,
        final(c)@.sample_rate == old(c)@.sample_rate,
{
}

/// A bone's shapes are those listed first under its name.
pub proof fn law_shapes_on_a_bone(
    p: &Cc5Physics,
    bone: &str,
    r: Option<&Vec<cc5_json::Cc5Shape>>,
    k: int,
)
    requires
        call_ensures(Cc5Physics::shapes_on, (p, bone), r),
        0 <= k <= p.by_bone@.len(),
        forall|j: int| 0 <= j < k ==> (#[trigger] p.by_bone@[j]).0@ != bone@,
        k < p.by_bone@.len() ==> p.by_bone@[k].0@ == bone@,
    ensures
        k == p.by_bone@.len() ==> r is None,
        k < p.by_bone@.len() ==> (r matches Some(s) && cc5_json::shapes_view(s@)
            == cc5_json::shapes_view(p.by_bone@[k].1@)),
{
    let all = p@.by_bone;
    assert forall|j: int| 0 <= j < k implies (#[trigger] all[j]).0 != bone@ by {
        assert(all[j].0 == p.by_bone@[j].0@);
    }
    if k < all.len() {
        assert(all[k].0 == p.by_bone@[k].0@);
    }
    data_laws::law_first_bone_counts(all, bone@, k);
}

/// The values of body and hair are those that the meshes' names choose.
pub proof fn law_soft_values(
    p: &Cc5Physics,
    body: Option<cc5_json::Cc5SoftPhysics>,
    hair: Option<cc5_json::Cc5SoftPhysics>,
)
    requires
        call_ensures(Cc5Physics::body_soft_physics, (p,), body),
        call_ensures(Cc5Physics::hair_soft_physics, (p,), hair),
    ensures
        body == cc5_query::body_soft(p@.soft),
        hair == cc5_query::hair_soft(p@.soft),
{
}

/// What everything is before anyone says otherwise: settings.
pub proof fn law_default_settings(
    node: CcRenderConfig,
    params: CcRenderManifestParams,
    r: RendererConfig,
    p: PhysicsConfig,
    g: GrabConfig,
    v: PlayVolume,
    j: JointDebugConfig<Num>,
)
    requires
        call_ensures(<CcRenderConfig as Default>::default, (), node),
        call_ensures(<CcRenderManifestParams as Default>::default, (), params),
        call_ensures(<RendererConfig as Default>::default, (), r),
        call_ensures(<PhysicsConfig as Default>::default, (), p),
        call_ensures(<GrabConfig as Default>::default, (), g),
        call_ensures(<PlayVolume as Default>::default, (), v),
        call_ensures(<JointDebugConfig<Num> as Default>::default, (), j),
    ensures
        node.fps == 30 && node.width == 1280 && node.height == 1280 && !node.realtime_mode,
        node.video_stream_id@ == "avatar.video"@ && node.scene_glb_path is None,
        params.framerate == 30 && params.width == 1280 && params.height == 1280,
        params.glb_path is None && params.arkit_map_path is None && !params.realtime_mode,
        params.video_stream_id@ == "avatar.video"@ && params.scene_glb_path is None,
        r.fps == 30 && r.width == 1280 && r.height == 1280 && r.physics is None,
        p.timestep_hz == 120 && p.max_substeps_per_frame == 4 && p.ground_y is None,
        p.gravity@ == seq![Num::Thousandths(0), Num::Thousandths(-9810i64), Num::Thousandths(0)],
        p.grab.timeout_secs == Num::Thousandths(2000),
        g.proximity_m == Num::Thousandths(50) && g.timeout_secs == Num::Thousandths(2000),
        g.default_palm_offset@ == seq![
            Num::Thousandths(80),
            Num::Thousandths(0),
            Num::Thousandths(0),
        ],
        v.half_extents_xz == Num::Thousandths(2000) && v.ceiling_y == Num::Thousandths(3000),
        !j.enabled && j.axis_len == Num::Thousandths(60),
        j.marker_radius == Num::Thousandths(12) && j.label_font_size == Num::Thousandths(11000),
{
}

/// What everything is before anything happens: states.
pub proof fn law_default_states<F, V>(
    once: OneShot,
    gate: FitGate,
    follow: FollowCamera<V>,
    monitor: ReadyMonitor,
    driver: SkeletalDriver,
    hands: GrabFsms<F>,
    list: PropRegistry,
    face: ArkitPose<F>,
    body: SkeletalPose,
    scene: SceneState<F>,
    i: int,
)
    requires
        call_ensures(<OneShot as Default>::default, (), once),
        call_ensures(<FitGate as Default>::default, (), gate),
        call_ensures(<FollowCamera<V> as Default>::default, (), follow),
        call_ensures(<ReadyMonitor as Default>::default, (), monitor),
        call_ensures(<SkeletalDriver as Default>::default, (), driver),
        call_ensures(<GrabFsms<F> as Default>::default, (), hands),
        call_ensures(<PropRegistry as Default>::default, (), list),
        call_ensures(<ArkitPose<F> as Default>::default, (), face),
        call_ensures(<SkeletalPose as Default>::default, (), body),
        call_ensures(<SceneState<F> as Default>::default, (), scene),
        0 <= i < 22,
    ensures
        !once.done,
        !gate.done && gate.settle_ticks == 0,
        follow.offset is None,
        !monitor.fired && monitor.settled_frames == 0 && monitor.stable_count_ticks == 0,
        monitor.last_mesh_count == 0 && monitor.last_material_count == 0,
        !driver.active && driver.anchor is None && driver.last_pose is None,
        hands.left is Idle && hands.right is Idle,
        list@.by_id == Map::<Seq<char>, u64>::empty() && list@.failures.len() == 0,
        face.weights@.len() == 0 && face.pts_ms == 0,
        body.joint_quats@[i]@ == seq![
            Num::Unsigned(0),
            Num::Unsigned(0),
            Num::Unsigned(0),
            Num::Unsigned(1),
        ],
        body.root_pos@ == seq![Num::Unsigned(0), Num::Unsigned(0), Num::Unsigned(0)],
        scene.props@.len() == 0 && scene.grabs@.len() == 0 && scene.failed_grabs@.len() == 0,
{
}

/// The name that node and factory go by.
pub proof fn law_node_type<S: Copy>(
    node: &CcRenderNode<S>,
    f: &CcRenderNodeFactory,
    a: &'static str,
    b: &'static str,
)
    requires
        call_ensures(CcRenderNode::<S>::node_type, (node,), a),
        call_ensures(CcRenderNodeFactory::node_type, (f,), b),
    ensures
        a@ == "CcRenderNode"@,
        b@ == "CcRenderNode"@,
{
}

/// What the node tells of itself.
pub proof fn law_node_reports<S: Copy>(
    node: &CcRenderNode<S>,
    frames: u64,
    stale: u64,
    queued: usize,
    rate: u32,
)
    requires
        call_ensures(CcRenderNode::<S>::frames_emitted, (node,), frames),
        call_ensures(CcRenderNode::<S>::stale_frames_dropped, (node,), stale),
        call_ensures(CcRenderNode::<S>::queued_samples, (node,), queued),
        call_ensures(CcRenderNode::<S>::fallback_rate_hz, (node,), rate),
    ensures
        frames == node@.frames,
        stale == node@.stale,
        queued == node@.audio.samples.len(),
        rate == node@.fps,
{
}

} // verus!
