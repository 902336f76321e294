//! From facial weights to the weights of a mesh's morph targets.
//!
//! Weights are of any type; what a live weight is and how one adds to another
//! is given by the caller.
use crate::json::Num;
use crate::morph_map;
use crate::morph_map::{ArkitMap, MorphRef};
use crate::renderer::ArkitPose;
use crate::sidecar;
use crate::text;
use vstd::prelude::*;
use vstd::string::*;

verus! {

/// One contribution to a morph weight: the target's index, the channel's weight
/// and the target's own factor.
#[derive(Clone, Copy, Debug)]
pub struct Part<W> {
    pub at: usize,
    pub weight: W,
    pub factor: Num,
}

/// Index of the last target called `name`.
pub open spec fn target_index(targets: Seq<Seq<char>>, name: Seq<char>) -> Option<nat>
    decreases targets.len(),
{
    if targets.len() == 0 {
        None
    } else if targets.last() == name {
        Some((targets.len() - 1) as nat)
    } else {
        target_index(targets.drop_last(), name)
    }
}

/// What one channel contributes to a mesh.
pub open spec fn ref_parts<W>(
    refs: Seq<morph_map::RefView>,
    targets: Seq<Seq<char>>,
    mesh: Seq<char>,
    weight: W,
) -> Seq<Part<W>>
    decreases refs.len(),
{
    if refs.len() == 0 {
        Seq::empty()
    } else {
        let init = ref_parts(refs.drop_last(), targets, mesh, weight);
        let r = refs.last();
        match target_index(targets, r.morph) {
            Some(at) => if r.meshes.contains(mesh) {
                init.push(Part { at: at as usize, weight, factor: r.weight })
            } else {
                init
            },
            None => init,
        }
    }
}

/// The targets of a channel: those of its first entry.
pub open spec fn refs_for(
    map: Seq<(Seq<char>, Seq<morph_map::RefView>)>,
    channel: Seq<char>,
) -> Seq<morph_map::RefView>
    decreases map.len(),
{
    if map.len() == 0 {
        Seq::empty()
    } else if map[0].0 == channel {
        map[0].1
    } else {
        refs_for(map.subrange(1, map.len() as int), channel)
    }
}

/// Channel names with their weights as data.
pub open spec fn weights_view<W>(weights: Seq<(String, W)>) -> Seq<(Seq<char>, W)> {
    weights.map_values(|e: (String, W)| (e.0@, e.1))
}

/// What the live channels of a pose contribute to a mesh, in order.
pub open spec fn pose_parts<W>(
    weights: Seq<(Seq<char>, W)>,
    map: Seq<(Seq<char>, Seq<morph_map::RefView>)>,
    targets: Seq<Seq<char>>,
    mesh: Seq<char>,
    live: spec_fn(W) -> bool,
) -> Seq<Part<W>>
    decreases weights.len(),
{
    if weights.len() == 0 {
        Seq::empty()
    } else {
        let init = pose_parts(weights.drop_last(), map, targets, mesh, live);
        let (channel, w) = weights.last();
        if live(w) {
            init + ref_parts(refs_for(map, channel), targets, mesh, w)
        } else {
            init
        }
    }
}

/// Contributions added up, each to its own target.
pub open spec fn blended<W>(
    start: Seq<W>,
    parts: Seq<Part<W>>,
    mix: spec_fn(W, W, Num) -> W,
) -> Seq<W>
    decreases parts.len(),
{
    if parts.len() == 0 {
        start
    } else {
        let init = blended(start, parts.drop_last(), mix);
        let p = parts.last();
        init.update(p.at as int, mix(init[p.at as int], p.weight, p.factor))
    }
}

/// Which weights `live` takes for live.
pub open spec fn sorts_out<W, L: Fn(W) -> bool>(live: L, l: spec_fn(W) -> bool) -> bool {
    forall|w: W, r: bool| #[trigger] call_ensures(live, (w,), r) ==> r == l(w)
}

/// How `mix` adds a weight, scaled by a factor, to another.
pub open spec fn mixes<W, M: Fn(W, W, Num) -> W>(mix: M, m: spec_fn(W, W, Num) -> W) -> bool {
    forall|a: W, b: W, f: Num, r: W| #[trigger] call_ensures(mix, (a, b, f), r) ==> r == m(a, b, f)
}

/// Index of the last target called `name`.
fn find_target(targets: &Vec<String>, name: &str) -> (r: Option<usize>)
    ensures
        match r {
            Some(at) => target_index(sidecar::strings_view(targets@), name@) == Some(at as nat)
                && at < targets@.len(),
            None => target_index(sidecar::strings_view(targets@), name@) is None,
        },
{
    let ghost all = sidecar::strings_view(targets@);
    let mut n: usize = targets.len();
    assert(all.take(n as int) =~= all);
    while n > 0
        invariant
            n <= targets.len(),
            all == sidecar::strings_view(targets@),
            target_index(all, name@) == target_index(all.take(n as int), name@),
        decreases n,
    {
        assert(all.take(n as int).last() == targets@[n - 1]@);
        assert(all.take(n as int).drop_last() =~= all.take(n - 1));
        if text::same(targets[n - 1].as_str(), name) {
            return Some(n - 1);
        }
        n = n - 1;
    }
    None
}

/// Whether a list of names holds `name`.
fn holds(names: &Vec<String>, name: &str) -> (r: bool)
    ensures
        r == sidecar::strings_view(names@).contains(name@),
{
    let ghost all = sidecar::strings_view(names@);
    let mut i: usize = 0;
    while i < names.len()
        invariant
            i <= names.len(),
            all == sidecar::strings_view(names@),
            forall|k: int| 0 <= k < i ==> all[k] != name@,
        decreases names.len() - i,
    {
        assert(all[i as int] == names@[i as int]@);
        if text::same(names[i].as_str(), name) {
            return true;
        }
        i = i + 1;
    }
    false
}

/// The targets of a channel.
fn find_refs<'a>(map: &'a ArkitMap, channel: &str) -> (r: Option<&'a Vec<MorphRef>>)
    ensures
        match r {
            Some(refs) => morph_map::refs_view(refs@) == refs_for(map@, channel@),
            None => refs_for(map@, channel@) == Seq::<morph_map::RefView>::empty(),
        },
{
    let ghost all = map@;
    let mut i: usize = 0;
    assert(all.subrange(0, all.len() as int) =~= all);
    while i < map.mapping.len()
        invariant
            i <= map.mapping.len(),
            all == map@,
            refs_for(all, channel@) == refs_for(
                all.subrange(i as int, all.len() as int),
                channel@,
            ),
        decreases map.mapping.len() - i,
    {
        let ghost rest = all.subrange(i as int, all.len() as int);
        assert(rest[0] == (map.mapping@[i as int].0@, morph_map::refs_view(
            map.mapping@[i as int].1@,
        )));
        assert(rest.subrange(1, rest.len() as int) =~= all.subrange(i + 1, all.len() as int));
        if text::same(map.mapping[i].0.as_str(), channel) {
            return Some(&map.mapping[i].1);
        }
        i = i + 1;
    }
    None
}

/// What one channel contributes to a mesh, put behind `parts`.
fn add_parts<W: Copy>(
    parts: &mut Vec<Part<W>>,
    refs: &Vec<MorphRef>,
    targets: &Vec<String>,
    mesh: &str,
    weight: W,
)
    ensures
        final(parts)@ == old(parts)@ + ref_parts(
            morph_map::refs_view(refs@),
            sidecar::strings_view(targets@),
            mesh@,
            weight,
        ),
        (forall|k: int| 0 <= k < old(parts)@.len() ==> (#[trigger] old(parts)@[k]).at
            < targets@.len()) ==> (forall|k: int|
            0 <= k < final(parts)@.len() ==> (#[trigger] final(parts)@[k]).at < targets@.len()),
{
    let ghost all = morph_map::refs_view(refs@);
    let ghost names = sidecar::strings_view(targets@);
    let ghost start = parts@;
    let mut i: usize = 0;
    assert(all.take(0) =~= Seq::<morph_map::RefView>::empty());
    assert(start + ref_parts(all.take(0), names, mesh@, weight) =~= start);
    while i < refs.len()
        invariant
            i <= refs.len(),
            start == old(parts)@,
            all == morph_map::refs_view(refs@),
            names == sidecar::strings_view(targets@),
            parts@ == start + ref_parts(all.take(i as int), names, mesh@, weight),
            (forall|k: int| 0 <= k < start.len() ==> (#[trigger] start[k]).at < targets@.len())
                ==> (forall|k: int|
                0 <= k < parts@.len() ==> (#[trigger] parts@[k]).at < targets@.len()),
        decreases refs.len() - i,
    {
        let ghost before = ref_parts(all.take(i as int), names, mesh@, weight);
        proof {
            assert(all.take(i + 1).drop_last() =~= all.take(i as int));
            assert(all[i as int] == refs@[i as int]@);
        }
        if holds(&refs[i].meshes, mesh) {
            match find_target(targets, refs[i].morph.as_str()) {
                Some(at) => {
                    let part = Part { at, weight, factor: refs[i].weight };
                    parts.push(part);
                    assert((start + before).push(part) =~= start + before.push(part));
                },
                None => {},
            }
        }
        i = i + 1;
    }
    assert(all.take(all.len() as int) =~= all);
}

/// What the live channels of a pose contribute to a mesh.
pub fn contributions<W: Copy, L: Fn(W) -> bool>(
    pose: &ArkitPose<W>,
    map: &ArkitMap,
    targets: &Vec<String>,
    mesh: &str,
    live: &L,
) -> (r: Vec<Part<W>>)
    requires
        forall|w: W| call_requires(*live, (w,)),
    ensures
        forall|l: spec_fn(W) -> bool| #[trigger]
            sorts_out(*live, l) ==> r@ == pose_parts(
                weights_view(pose.weights@),
                map@,
                sidecar::strings_view(targets@),
                mesh@,
                l,
            ),
        forall|k: int| 0 <= k < r@.len() ==> (#[trigger] r@[k]).at < targets@.len(),
{
    let ghost all = weights_view(pose.weights@);
    let ghost names = sidecar::strings_view(targets@);
    let mut parts: Vec<Part<W>> = Vec::new();
    let mut i: usize = 0;
    assert(all.take(0) =~= Seq::<(Seq<char>, W)>::empty());
    while i < pose.weights.len()
        invariant
            i <= pose.weights.len(),
            all == weights_view(pose.weights@),
            names == sidecar::strings_view(targets@),
            forall|w: W| call_requires(*live, (w,)),
            forall|l: spec_fn(W) -> bool| #[trigger]
                sorts_out(*live, l) ==> parts@ == pose_parts(
                    all.take(i as int),
                    map@,
                    names,
                    mesh@,
                    l,
                ),
            forall|k: int| 0 <= k < parts@.len() ==> (#[trigger] parts@[k]).at < targets@.len(),
        decreases pose.weights.len() - i,
    {
        let ghost before = parts@;
        proof {
            assert(all.take(i + 1).drop_last() =~= all.take(i as int));
            assert(all[i as int] == (pose.weights@[i as int].0@, pose.weights@[i as int].1));
        }
        let w: W = pose.weights[i].1;
        if live(w) {
            match find_refs(map, pose.weights[i].0.as_str()) {
                Some(refs) => {
                    add_parts(&mut parts, refs, targets, mesh, w);
                },
                None => {
                    proof {
                        assert(before + ref_parts(
                            Seq::<morph_map::RefView>::empty(),
                            names,
                            mesh@,
                            w,
                        ) =~= before);
                    }
                },
            }
        }
        i = i + 1;
    }
    assert(all.take(all.len() as int) =~= all);
    parts
}

/// The morph weights of a mesh: contributions added up, starting from `zero` for
/// each of `n` targets.
pub fn blend<W: Copy, M: Fn(W, W, Num) -> W>(
    n: usize,
    zero: W,
    parts: &Vec<Part<W>>,
    mix: &M,
) -> (r: Vec<W>)
    requires
        forall|a: W, b: W, f: Num| call_requires(*mix, (a, b, f)),
        forall|k: int| 0 <= k < parts@.len() ==> (#[trigger] parts@[k]).at < n,
    ensures
        r@.len() == n,
        forall|m: spec_fn(W, W, Num) -> W| #[trigger]
            mixes(*mix, m) ==> r@ == blended(Seq::new(n as nat, |i: int| zero), parts@, m),
{
    let ghost start: Seq<W> = Seq::new(n as nat, |i: int| zero);
    let mut out: Vec<W> = Vec::new();
    let mut filled: usize = 0;
    while filled < n
        invariant
            filled <= n,
            out@ == Seq::new(filled as nat, |i: int| zero),
        decreases n - filled,
    {
        out.push(zero);
        filled = filled + 1;
        assert(out@ =~= Seq::new(filled as nat, |i: int| zero));
    }
    let mut i: usize = 0;
    assert(parts@.take(0) =~= Seq::<Part<W>>::empty());
    while i < parts.len()
        invariant
            i <= parts.len(),
            out@.len() == n,
            forall|a: W, b: W, f: Num| call_requires(*mix, (a, b, f)),
            forall|k: int| 0 <= k < parts@.len() ==> (#[trigger] parts@[k]).at < n,
            forall|m: spec_fn(W, W, Num) -> W| #[trigger]
                mixes(*mix, m) ==> out@ == blended(start, parts@.take(i as int), m),
        decreases parts.len() - i,
    {
        assert(parts@.take(i + 1).drop_last() =~= parts@.take(i as int));
        let p: Part<W> = parts[i];
        let w: W = mix(out[p.at], p.weight, p.factor);
        out.set(p.at, w);
        i = i + 1;
    }
    assert(parts@.take(parts@.len() as int) =~= parts@);
    out
}

/// What a mesh part shows: how many contributions it got and how many targets
/// it has.
#[derive(Clone, Copy, Debug, PartialEq, Eq, Structural)]
pub struct PartReport {
    pub hits: usize,
    pub targets: usize,
}

/// The morph weights of a mesh in a pose, each starting from `zero`, and how many
/// contributions went into how many of them.
pub fn mesh_weights<W: Copy, L: Fn(W) -> bool, M: Fn(W, W, Num) -> W>(
    pose: &ArkitPose<W>,
    map: &ArkitMap,
    targets: &Vec<String>,
    mesh: &str,
    zero: W,
    live: &L,
    mix: &M,
) -> (r: (Vec<W>, PartReport))
    requires
        forall|w: W| call_requires(*live, (w,)),
        forall|a: W, b: W, f: Num| call_requires(*mix, (a, b, f)),
    ensures
        r.0@.len() == targets@.len(),
        r.1.targets == targets@.len(),
        forall|l: spec_fn(W) -> bool| #[trigger]
            sorts_out(*live, l) ==> r.1.hits == pose_parts(
                weights_view(pose.weights@),
                map@,
                sidecar::strings_view(targets@),
                mesh@,
                l,
            ).len(),
        forall|l: spec_fn(W) -> bool, m: spec_fn(W, W, Num) -> W| #[trigger]
            sorts_out(*live, l) && #[trigger] mixes(*mix, m) ==> r.0@ == blended(
                Seq::new(targets@.len(), |i: int| zero),
                pose_parts(
                    weights_view(pose.weights@),
                    map@,
                    sidecar::strings_view(targets@),
                    mesh@,
                    l,
                ),
                m,
            ),
{
    let parts: Vec<Part<W>> = contributions(pose, map, targets, mesh, live);
    let weights: Vec<W> = blend(targets.len(), zero, &parts, mix);
    let report = PartReport { hits: parts.len(), targets: targets.len() };
    (weights, report)
}

/// The most hits so far, and the part whose weights the parent is to mirror.
pub open spec fn mirrored(parts: Seq<PartReport>, parent_len: nat) -> (nat, Option<nat>)
    decreases parts.len(),
{
    if parts.len() == 0 {
        (0, None)
    } else {
        let (hits, chosen) = mirrored(parts.drop_last(), parent_len);
        let p = parts.last();
        if p.hits > hits || chosen is None {
            (
                p.hits as nat,
                if p.targets == parent_len {
                    Some((parts.len() - 1) as nat)
                } else {
                    chosen
                },
            )
        } else {
            (hits, chosen)
        }
    }
}

/// The part of a mesh whose weights its parent mirrors: the first with as many
/// targets as the parent has weights, until a later one like it gets more
/// contributions than every part since.
pub fn mirror(parts: &Vec<PartReport>, parent_len: usize) -> (r: Option<usize>)
    ensures
        match r {
            Some(at) => mirrored(parts@, parent_len as nat).1 == Some(at as nat),
            None => mirrored(parts@, parent_len as nat).1 is None,
        },
{
    let mut hits: usize = 0;
    let mut chosen: Option<usize> = None;
    let mut i: usize = 0;
    assert(parts@.take(0) =~= Seq::<PartReport>::empty());
    while i < parts.len()
        invariant
            i <= parts.len(),
            mirrored(parts@.take(i as int), parent_len as nat) == (
                hits as nat,
                match chosen {
                    Some(at) => Some(at as nat),
                    None => None::<nat>,
                },
            ),
        decreases parts.len() - i,
    {
        assert(parts@.take(i + 1).drop_last() =~= parts@.take(i as int));
        let p: PartReport = parts[i];
        if p.hits > hits || chosen.is_none() {
            hits = p.hits;
            if p.targets == parent_len {
                chosen = Some(i);
            }
        }
        i = i + 1;
    }
    assert(parts@.take(parts@.len() as int) =~= parts@);
    chosen
}

/// The pose in force: a non-empty override drives that channel alone, at the
/// given amplitude.
pub fn with_override<W>(pose: ArkitPose<W>, channel: Option<&str>, amp: W) -> (r: ArkitPose<W>)
    ensures
        r.pts_ms == pose.pts_ms,
        match channel {
            Some(name) => if name@.len() > 0 {
                weights_view(r.weights@) == seq![(name@, amp)]
            } else {
                r == pose
            },
            None => r == pose,
        },
{
    match channel {
        Some(name) => {
            if name.unicode_len() > 0 {
                let mut weights: Vec<(String, W)> = Vec::new();
                weights.push((name.to_owned(), amp));
                assert(weights_view(weights@) =~= seq![(name@, amp)]);
                ArkitPose { weights, pts_ms: pose.pts_ms }
            } else {
                pose
            }
        },
        None => pose,
    }
}

/// A target that no contribution names keeps its weight.
pub proof fn law_untouched_targets_rest<W>(
    start: Seq<W>,
    parts: Seq<Part<W>>,
    mix: spec_fn(W, W, Num) -> W,
    target: int,
)
    requires
        forall|k: int|
            0 <= k < parts.len() ==> (#[trigger] parts[k]).at < start.len() && parts[k].at
                != target,
    ensures
        blended(start, parts, mix).len() == start.len(),
        0 <= target < start.len() ==> blended(start, parts, mix)[target] == start[target],
    decreases parts.len(),
{
    if parts.len() > 0 {
        let init = parts.drop_last();
        assert(parts.last() == parts[parts.len() - 1]);
        assert forall|k: int| 0 <= k < init.len() implies (#[trigger] init[k]).at
            < start.len() && init[k].at != target by {
            assert(init[k] == parts[k]);
        }
        law_untouched_targets_rest(start, init, mix, target);
    }
}

/// Channels that are not live leave every weight alone.
pub proof fn law_idle_face_rests<W>(
    weights: Seq<(Seq<char>, W)>,
    map: Seq<(Seq<char>, Seq<morph_map::RefView>)>,
    targets: Seq<Seq<char>>,
    mesh: Seq<char>,
    live: spec_fn(W) -> bool,
)
    requires
        forall|k: int| 0 <= k < weights.len() ==> !live((#[trigger] weights[k]).1),
    ensures
        pose_parts(weights, map, targets, mesh, live).len() == 0,
    decreases weights.len(),
{
    if weights.len() > 0 {
        assert(weights.last() == weights[weights.len() - 1]);
        let init = weights.drop_last();
        assert forall|k: int| 0 <= k < init.len() implies !live((#[trigger] init[k]).1) by {
            assert(init[k] == weights[k]);
        }
        law_idle_face_rests(init, map, targets, mesh, live);
    }
}

/// A mirrored part has as many targets as its parent has weights.
pub proof fn law_mirror_fits(parts: Seq<PartReport>, parent_len: nat)
    ensures
        mirrored(parts, parent_len).1 matches Some(at) ==> at < parts.len()
            && parts[at as int].targets == parent_len,
    decreases parts.len(),
{
    if parts.len() > 0 {
        law_mirror_fits(parts.drop_last(), parent_len);
    }
}

/// Where any part fits, one is mirrored.
pub proof fn law_fitting_part_is_mirrored(parts: Seq<PartReport>, parent_len: nat, at: int)
    requires
        0 <= at < parts.len(),
        parts[at].targets == parent_len,
    ensures
        mirrored(parts, parent_len).1 is Some,
    decreases parts.len(),
{
    if at < parts.len() - 1 {
        assert(parts.drop_last()[at] == parts[at]);
        law_fitting_part_is_mirrored(parts.drop_last(), parent_len, at);
    }
}

/// A pose without weights leaves every target at the weight that blending starts
/// from.
pub proof fn law_rest_pose_rests_the_targets<W>(
    start: Seq<W>,
    map: Seq<(Seq<char>, Seq<morph_map::RefView>)>,
    targets: Seq<Seq<char>>,
    mesh: Seq<char>,
    live: spec_fn(W) -> bool,
    mix: spec_fn(W, W, Num) -> W,
)
    ensures
        blended(
            start,
            pose_parts(Seq::<(Seq<char>, W)>::empty(), map, targets, mesh, live),
            mix,
        ) == start,
{
}

} // verus!
