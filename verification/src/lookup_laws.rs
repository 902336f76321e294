//! What holds of the operations that ask the caller, told by what they ask and what they
//! answer.
use crate::audio;
use crate::audio::AudioBuf;
use crate::bind::{BindCapture, BoneRest};
use crate::camera;
use crate::camera::FollowCamera;
use crate::cc5_json::Cc5Physics;
use crate::data_laws;
use crate::hierarchy;
use crate::json::Num;
use crate::morph;
use crate::morph::Part;
use crate::morph_laws;
use crate::morph_map::ArkitMap;
use crate::overlay;
use crate::overlay::JointDebugConfig;
use crate::picture_laws;
use crate::renderer::ArkitPose;
use crate::retarget;
use crate::scene_laws;
use crate::secondary;
use crate::text;
use crate::world;
use crate::world::{GroundFinder, GroundStep};
use vstd::prelude::*;

verus! {

/// The floor is moved once, to the height of the lowest foot, in the first frame that
/// finds the body; it stays where the body has no feet or the floor is there already.
pub proof fn law_floor_is_moved_once<H: Copy, C: Fn(H, H) -> bool>(
    finder: &mut GroundFinder,
    body_found: bool,
    lowest: Option<H>,
    current: H,
    close: &C,
    r: GroundStep<H>,
    c: spec_fn(H, H) -> bool,
)
    requires
        call_ensures(
            GroundFinder::step::<H, C>,
            (finder, body_found, lowest, current, close),
            r,
        ),
        forall|a: H, b: H, o: bool| #[trigger] call_ensures(*close, (a, b), o) ==> o == c(a, b),
    ensures
        final(finder).searching == (old(finder).searching && !body_found),
        !old(finder).searching || !body_found ==> r is Wait,
        old(finder).searching && body_found ==> {
            &&& lowest is None ==> r is Keep
            &&& lowest matches Some(y) ==> (c(y, current) ==> r is Keep) && (!c(y, current) ==> r
                == GroundStep::Move(y))
        },
{
    let args = (finder, body_found, lowest, current, close);
    assert(args.1 == body_found && args.2 == lowest && args.3 == current && args.4 == close);
    assert(world::equates(*close, c));
}

/// The floor lies at the lowest of the known heights of ankles and feet: taken in the
/// order 7, 8, 10, 11, and no other joint counts.
pub proof fn law_lowest_foot<H: Copy, R: Fn(usize) -> Option<H>, L: Fn(H, H) -> H>(
    resolve: &R,
    lower: &L,
    r: Option<H>,
    h: spec_fn(usize) -> Option<H>,
    l: spec_fn(H, H) -> H,
)
    requires
        call_ensures(world::lowest_foot_y::<H, R, L>, (resolve, lower), r),
        forall|i: usize, o: Option<H>| #[trigger] call_ensures(*resolve, (i,), o) ==> o == h(i),
        forall|a: H, b: H, o: H| #[trigger] call_ensures(*lower, (a, b), o) ==> o == l(a, b),
    ensures
        h(7) is None && h(8) is None && h(10) is None && h(11) is None ==> r is None,
        h(7) is Some && h(8) is Some && h(10) is Some && h(11) is Some ==> r == Some(
            l(l(l(h(7)->0, h(8)->0), h(10)->0), h(11)->0),
        ),
        h(7) is None && h(8) is None && h(10) is None ==> r == h(11),
        h(7) is None && h(8) is None && h(11) is None ==> r == h(10),
        h(7) is None && h(10) is None && h(11) is None ==> r == h(8),
        h(8) is None && h(10) is None && h(11) is None ==> r == h(7),
{
    let args = (resolve, lower);
    assert(args.0 == resolve && args.1 == lower);
    assert(world::finds(*resolve, h));
    assert(world::compares(*lower, l));
    let none = Seq::<usize>::empty();
    scene_laws::law_floor_joint_by_joint(none, 7, h, l);
    scene_laws::law_floor_joint_by_joint(none.push(7), 8, h, l);
    scene_laws::law_floor_joint_by_joint(none.push(7).push(8), 10, h, l);
    scene_laws::law_floor_joint_by_joint(none.push(7).push(8).push(10), 11, h, l);
    assert(world::foot_joints() =~= none.push(7).push(8).push(10).push(11));
}

/// The box around some joints is the one that grows joint by joint.
pub proof fn law_box_around_joints<
    P: Copy,
    R: Fn(usize) -> Option<P>,
    L: Fn(P, P) -> P,
    U: Fn(P, P) -> P,
>(
    joints: &Vec<usize>,
    resolve: &R,
    lower: &L,
    upper: &U,
    r: Option<(P, P, usize)>,
    at: spec_fn(usize) -> Option<P>,
    lo: spec_fn(P, P) -> P,
    hi: spec_fn(P, P) -> P,
)
    requires
        call_ensures(camera::enclose::<P, R, L, U>, (joints, resolve, lower, upper), r),
        forall|i: usize, o: Option<P>| #[trigger] call_ensures(*resolve, (i,), o) ==> o == at(i),
        forall|a: P, b: P, o: P| #[trigger] call_ensures(*lower, (a, b), o) ==> o == lo(a, b),
        forall|a: P, b: P, o: P| #[trigger] call_ensures(*upper, (a, b), o) ==> o == hi(a, b),
    ensures
        r is Some == camera::enclosed(joints@, at, lo, hi) is Some,
        r matches Some(f) ==> camera::enclosed(joints@, at, lo, hi) == Some(
            (f.0, f.1, f.2 as nat),
        ),
{
    let args = (joints, resolve, lower, upper);
    assert(args.0 == joints && args.1 == resolve && args.2 == lower && args.3 == upper);
    assert(camera::locates(*resolve, at));
    assert(retarget::composes(*lower, lo));
    assert(retarget::composes(*upper, hi));
}

/// A camera without an offset notes it and stays; with one it goes to its subject plus
/// that offset.
pub proof fn law_camera_follows<V: Copy, P: Fn(V, V) -> V, M: Fn(V, V) -> V>(
    follow: &mut FollowCamera<V>,
    subject: V,
    camera: V,
    plus: &P,
    minus: &M,
    r: Option<V>,
    p: spec_fn(V, V) -> V,
    d: spec_fn(V, V) -> V,
)
    requires
        call_ensures(
            FollowCamera::<V>::step::<P, M>,
            (follow, subject, camera, plus, minus),
            r,
        ),
        forall|a: V, b: V, o: V| #[trigger] call_ensures(*plus, (a, b), o) ==> o == p(a, b),
        forall|a: V, b: V, o: V| #[trigger] call_ensures(*minus, (a, b), o) ==> o == d(a, b),
    ensures
        old(follow).offset is None ==> r is None && final(follow).offset == Some(
            d(camera, subject),
        ),
        old(follow).offset matches Some(o) ==> r == Some(p(subject, o)) && final(follow).offset
            == Some(o),
{
    let args = (follow, subject, camera, plus, minus);
    assert(args.1 == subject && args.2 == camera && args.3 == plus && args.4 == minus);
    assert(retarget::composes(*plus, p));
    assert(retarget::composes(*minus, d));
}

/// A text without this character in it.
pub open spec fn free_of(s: Seq<char>, c: char) -> bool {
    forall|i: int| 0 <= i < s.len() ==> #[trigger] s[i] != c
}

/// A text that is one more piece longer.
proof fn lemma_one_more_piece(s: Seq<char>, piece: Seq<char>, sep: char)
    requires
        free_of(piece, sep),
    ensures
        text::pieces(s.push(sep) + piece, sep) == text::pieces(s, sep).push(piece),
    decreases piece.len(),
{
    let whole = s.push(sep) + piece;
    if piece.len() == 0 {
        assert(whole =~= s.push(sep));
        assert(s.push(sep).drop_last() =~= s);
        assert(piece =~= Seq::empty());
    } else {
        let init = piece.drop_last();
        assert(whole.last() == piece[piece.len() - 1]);
        assert(whole.drop_last() =~= s.push(sep) + init);
        assert forall|i: int| 0 <= i < init.len() implies #[trigger] init[i] != sep by {
            assert(init[i] == piece[i]);
        }
        lemma_one_more_piece(s, init, sep);
        assert(init.push(piece.last()) =~= piece);
        assert(text::pieces(whole, sep) =~= text::pieces(s, sep).push(piece));
    }
}

proof fn lemma_single_piece(s: Seq<char>, sep: char)
    requires
        free_of(s, sep),
    ensures
        text::pieces(s, sep) == seq![s],
    decreases s.len(),
{
    if s.len() == 0 {
        assert(s =~= Seq::empty());
    } else {
        let init = s.drop_last();
        assert(s.last() == s[s.len() - 1]);
        assert forall|i: int| 0 <= i < init.len() implies #[trigger] init[i] != sep by {
            assert(init[i] == s[i]);
        }
        lemma_single_piece(init, sep);
        assert(init.push(s.last()) =~= s);
        assert(text::pieces(s, sep) =~= seq![s]);
    }
}

/// Three values with commas between them are read one by one, each without the white
/// space around it; one that cannot be read spoils the triplet, and so does a text
/// without two commas.
pub proof fn law_triplet<T, P: Fn(&str) -> Option<T>>(
    s: &str,
    parse: &P,
    r: Option<(T, T, T)>,
    a: Seq<char>,
    b: Seq<char>,
    c: Seq<char>,
    f: spec_fn(Seq<char>) -> Option<T>,
)
    requires
        call_ensures(camera::parse_triplet::<T, P>, (s, parse), r),
        forall|t: &str, o: Option<T>| #[trigger] call_ensures(*parse, (t,), o) ==> o == f(t@),
        free_of(a, ',') && free_of(b, ',') && free_of(c, ','),
    ensures
        s@ == (a.push(',') + b).push(',') + c ==> {
            let (x, y, z) = (f(text::trimmed(a)), f(text::trimmed(b)), f(text::trimmed(c)));
            &&& x is Some && y is Some && z is Some ==> r == Some((x->0, y->0, z->0))
            &&& x is None || y is None || z is None ==> r is None
        },
        s@ == a || s@ == a.push(',') + b ==> r is None,
{
    lemma_single_piece(a, ',');
    lemma_one_more_piece(a, b, ',');
    lemma_one_more_piece(a.push(',') + b, c, ',');
    let args = (s, parse);
    assert(args.0 == s && args.1 == parse);
    let three = seq![a].push(b).push(c);
    assert(three[0] == a && three[1] == b && three[2] == c);
}

/// An entity belongs to a root when it is one or one of the 64 entities above it is; no
/// entity does where there is no root. Before an avatar is spawned all entities are its.
pub proof fn law_descent<P: Fn(u64) -> Option<u64>>(
    entity: u64,
    parent: &P,
    roots: &Vec<u64>,
    r: bool,
    of_avatar: bool,
    p: spec_fn(u64) -> Option<u64>,
)
    requires
        call_ensures(hierarchy::is_descendant_of_any::<P>, (entity, parent, roots), r),
        call_ensures(hierarchy::is_under_avatar::<P>, (entity, parent, roots), of_avatar),
        forall|e: u64, o: Option<u64>| #[trigger] call_ensures(*parent, (e,), o) ==> o == p(e),
    ensures
        roots@.len() == 0 ==> !r && of_avatar,
        roots@.contains(entity) ==> r && of_avatar,
        roots@.len() > 0 && hierarchy::reaches(p, roots@, entity, 64) ==> r && of_avatar,
        !roots@.contains(entity) && !hierarchy::reaches(p, roots@, entity, 64) ==> !r,
        roots@.len() > 0 ==> of_avatar == r,
{
    let args = (entity, parent, roots);
    assert(args.0 == entity && args.1 == parent && args.2 == roots);
    assert(hierarchy::answers(*parent, p));
    scene_laws::law_what_belongs_to_the_avatar(p, roots@, entity);
}

/// The name above an entity is that of the nearest named one among the 32 above it.
pub proof fn law_name_above<P: Fn(u64) -> Option<u64>, N: Fn(u64) -> Option<String>>(
    entity: u64,
    parent: &P,
    names: &N,
    r: Option<String>,
    p: spec_fn(u64) -> Option<u64>,
    name: spec_fn(u64) -> Option<Seq<char>>,
    line: Seq<u64>,
    k: int,
)
    requires
        call_ensures(hierarchy::ancestor_name::<P, N>, (entity, parent, names), r),
        forall|e: u64, o: Option<u64>| #[trigger] call_ensures(*parent, (e,), o) ==> o == p(e),
        forall|e: u64, o: Option<String>| #[trigger]
            call_ensures(*names, (e,), o) ==> match o {
                Some(s) => name(e) == Some(s@),
                None => name(e) is None,
            },
        scene_laws::line_up(p, line),
        line[0] == entity,
        1 <= k < line.len(),
        forall|j: int| 1 <= j < k ==> name(#[trigger] line[j]) is None,
    ensures
        k <= 32 ==> (name(line[k]) matches Some(n) ==> (r matches Some(s) && s@ == n)),
        k > 32 ==> r is None,
{
    let args = (entity, parent, names);
    assert(args.0 == entity && args.1 == parent && args.2 == names);
    assert(hierarchy::answers(*parent, p));
    assert(hierarchy::calls(*names, name));
    scene_laws::law_nearest_name_above(p, name, line, k, 32);
}

/// The named entities of the avatar are picked out in order.
pub proof fn law_avatar_entities<P: Fn(u64) -> Option<u64>>(
    named: &Vec<(u64, String)>,
    parent: &P,
    avatars: &Vec<u64>,
    r: Vec<(u64, String)>,
    p: spec_fn(u64) -> Option<u64>,
)
    requires
        call_ensures(hierarchy::under_avatar::<P>, (named, parent, avatars), r),
        forall|e: u64, o: Option<u64>| #[trigger] call_ensures(*parent, (e,), o) ==> o == p(e),
    ensures
        secondary::named(r@) == hierarchy::avatar_part(
            secondary::named(named@),
            p,
            avatars@,
        ),
{
    let args = (named, parent, avatars);
    assert(args.0 == named && args.1 == parent && args.2 == avatars);
    assert(hierarchy::answers(*parent, p));
}

/// The world rotation of two ancestors is that of the outer one followed by the inner
/// one, which comes first in the list.
pub proof fn law_outer_rotation_first<Q: Copy, M: Fn(Q, Q) -> Q>(
    chain: &Vec<Option<Q>>,
    one: Q,
    compose: &M,
    r: Q,
    m: spec_fn(Q, Q) -> Q,
)
    requires
        call_ensures(
            hierarchy::parent_chain_world_rotation::<Q, M>,
            (chain, one, compose),
            r,
        ),
        forall|a: Q, b: Q, o: Q| #[trigger] call_ensures(*compose, (a, b), o) ==> o == m(a, b),
        forall|q: Q| #[trigger] m(one, q) == q,
    ensures
        r == hierarchy::chain_product(chain@, m, one),
        chain@.len() == 0 ==> r == one,
        chain@.len() == 2 && chain@[0] is Some && chain@[1] is Some ==> r == m(
            chain@[1]->0,
            chain@[0]->0,
        ),
{
    let args = (chain, one, compose);
    assert(args.0 == chain && args.1 == one && args.2 == compose);
    assert(retarget::composes(*compose, m));
    reveal_with_fuel(hierarchy::chain_product, 3);
}

/// The chest is measured at the upper spine, else at the lower, else at the hip; the
/// breast at the left, else at the right.
pub proof fn law_radii<R, M: Fn(&Vec<Num>) -> Option<R>>(
    p: &Cc5Physics,
    measure: &M,
    chest: Option<R>,
    breast: Option<R>,
    f: spec_fn(Seq<Num>) -> Option<R>,
)
    requires
        call_ensures(Cc5Physics::chest_radius_m::<R, M>, (p, measure), chest),
        call_ensures(Cc5Physics::breast_capsule_radius_m::<R, M>, (p, measure), breast),
        forall|v: &Vec<Num>, o: Option<R>| #[trigger]
            call_ensures(*measure, (v,), o) ==> o == f(v@),
    ensures
        ({
            let bones = p@.by_bone;
            let upper = data_laws::size_at(bones, "CC_Base_Spine02"@, f);
            let lower = data_laws::size_at(bones, "CC_Base_Spine01"@, f);
            let hip = data_laws::size_at(bones, "CC_Base_Hip"@, f);
            let left = data_laws::size_at(bones, "CC_Base_L_Breast"@, f);
            let right = data_laws::size_at(bones, "CC_Base_R_Breast"@, f);
            &&& upper is Some ==> chest == upper
            &&& upper is None && lower is Some ==> chest == lower
            &&& upper is None && lower is None ==> chest == hip
            &&& left is Some ==> breast == left
            &&& left is None ==> breast == right
        }),
{
    data_laws::law_where_chest_and_breast_are_measured(p@.by_bone, *measure, f, chest, breast);
}

/// A bind pose is noted once: a capture that has one notes nothing, and one that notes
/// nothing changes nothing.
pub proof fn law_bind_pose_is_noted_once<
    Q: Copy,
    P: Fn(u64) -> Option<u64>,
    R: Fn(u64) -> Option<BoneRest<Q>>,
    M: Fn(Q, Q) -> Q,
    I: Fn(Q) -> Q,
>(
    capture: &mut BindCapture<Q>,
    named: &Vec<(u64, String)>,
    parent: &P,
    avatars: &Vec<u64>,
    rest: &R,
    one: Q,
    compose: &M,
    inv: &I,
    r: bool,
)
    requires
        call_ensures(
            BindCapture::<Q>::capture::<P, R, M, I>,
            (capture, named, parent, avatars, rest, one, compose, inv),
            r,
        ),
    ensures
        old(capture).pose is Some ==> !r,
        !r ==> *final(capture) == *old(capture),
        r ==> old(capture).pose is None && final(capture).pose is Some,
{
}

/// A measurement is what the setting gives where it can be read, else the default; each
/// of the joint overlay's measurements has its own setting.
pub proof fn law_joint_overlay_settings<F, P: Fn(&str) -> Option<F>>(
    enabled: Option<&str>,
    axis_len: Option<&str>,
    marker_radius: Option<&str>,
    label_font_size: Option<&str>,
    usual: JointDebugConfig<F>,
    parse: &P,
    r: JointDebugConfig<F>,
    p: spec_fn(Seq<char>) -> Option<F>,
)
    requires
        call_ensures(
            JointDebugConfig::<F>::from_env::<P>,
            (enabled, axis_len, marker_radius, label_font_size, usual, parse),
            r,
        ),
        forall|s: &str, o: Option<F>| #[trigger] call_ensures(*parse, (s,), o) ==> o == p(s@),
    ensures
        enabled is None ==> !r.enabled,
        enabled matches Some(s) ==> r.enabled == (s@ == "1"@),
        axis_len is None ==> r.axis_len == usual.axis_len,
        axis_len matches Some(s) ==> (p(s@) matches Some(v) ==> r.axis_len == v),
        marker_radius is None ==> r.marker_radius == usual.marker_radius,
        marker_radius matches Some(s) ==> (p(s@) matches Some(v) ==> r.marker_radius == v),
        label_font_size is None ==> r.label_font_size == usual.label_font_size,
        label_font_size matches Some(s) ==> (p(s@) matches Some(v) ==> r.label_font_size == v),
        axis_len matches Some(s) ==> (p(s@) is None ==> r.axis_len == usual.axis_len),
        marker_radius matches Some(s) ==> (p(s@) is None ==> r.marker_radius
            == usual.marker_radius),
        label_font_size matches Some(s) ==> (p(s@) is None ==> r.label_font_size
            == usual.label_font_size),
{
    let args = (enabled, axis_len, marker_radius, label_font_size, usual, parse);
    assert(args.0 == enabled && args.1 == axis_len && args.2 == marker_radius);
    assert(args.3 == label_font_size && args.4 == usual && args.5 == parse);
    assert(overlay::reads(*parse, p));
}

/// A packet of several channels is queued as one mixed sample for each of its whole
/// frames, in order; a mono packet as it is.
pub proof fn law_packet_is_mixed_down<S: Copy, M: Fn(&[S]) -> S>(
    queue: &mut AudioBuf<S>,
    packet: &[S],
    rate: u32,
    channels: u32,
    mix: M,
    f: spec_fn(Seq<S>) -> S,
    k: int,
)
    requires
        call_ensures(AudioBuf::<S>::receive::<M>, (queue, packet, rate, channels, mix), ()),
        channels >= 2,
        forall|frame: &[S], o: S| #[trigger] call_ensures(mix, (frame,), o) ==> o == f(frame@),
    ensures
        ({
            let before = old(queue)@.samples;
            let after = final(queue)@.samples;
            let more = after.len() - before.len();
            &&& more * channels <= packet@.len() < more * channels + channels
            &&& after.take(before.len() as int) == before
            &&& 0 <= k < more ==> after[before.len() + k] == f(
                packet@.subrange(k * channels, (k + 1) * channels),
            )
        }),
        old(queue)@.sample_rate == 0 ==> final(queue)@.sample_rate == rate,
        old(queue)@.sample_rate != 0 ==> final(queue)@.sample_rate == old(queue)@.sample_rate,
        final(queue)@.emitted == old(queue)@.emitted,
{
    let before = old(queue)@.samples;
    let after = final(queue)@.samples;
    let mono = choose|mono: Seq<S>| #[trigger]
        audio::mixed_down(packet@, channels as nat, mix, mono) && final(queue)@ == old(
            queue,
        )@.received(mono, rate as nat);
    assert(after == before + mono);
    assert(after.take(before.len() as int) =~= before);
    picture_laws::law_one_sample_per_frame(packet@, channels as nat, mix, mono, k);
    if 0 <= k < mono.len() {
        let frame = choose|frame: &[S]| #[trigger]
            call_ensures(mix, (frame,), mono[k]) && frame@ == packet@.subrange(
                k * channels,
                (k + 1) * channels,
            );
        assert(mono[k] == f(frame@));
    }
}

/// What a pose contributes to a mesh, contribution by contribution.
pub proof fn law_contributions<W: Copy, L: Fn(W) -> bool>(
    pose: &ArkitPose<W>,
    map: &ArkitMap,
    targets: &Vec<String>,
    mesh: &str,
    live: &L,
    r: Vec<Part<W>>,
    l: spec_fn(W) -> bool,
)
    requires
        call_ensures(morph::contributions::<W, L>, (pose, map, targets, mesh, live), r),
        forall|w: W, o: bool| #[trigger] call_ensures(*live, (w,), o) ==> o == l(w),
    ensures
        r@ == morph_laws::parts_of(pose.weights@, *map, targets@, mesh@, l),
{
    let args = (pose, map, targets, mesh, live);
    assert(args.0 == pose && args.1 == map && args.2 == targets && args.3 == mesh);
    assert(args.4 == live);
    assert(morph::sorts_out(*live, l));
}

} // verus!
