//! What holds of morph weights, told by channels, targets and meshes.
use crate::json::Num;
use crate::morph;
use crate::morph::{Part, PartReport};
use crate::morph_map;
use crate::morph_map::{ArkitMap, MorphRef};
use crate::renderer::ArkitPose;
use crate::sidecar;
use vstd::prelude::*;

verus! {

/// What a pose contributes to the targets of a mesh.
pub open spec fn parts_of<W>(
    weights: Seq<(String, W)>,
    map: ArkitMap,
    targets: Seq<String>,
    mesh: Seq<char>,
    live: spec_fn(W) -> bool,
) -> Seq<Part<W>> {
    morph::pose_parts(
        morph::weights_view(weights),
        map@,
        sidecar::strings_view(targets),
        mesh,
        live,
    )
}

/// What a list of references contributes to the targets of a mesh.
pub open spec fn parts_by<W>(
    refs: Seq<MorphRef>,
    targets: Seq<String>,
    mesh: Seq<char>,
    weight: W,
) -> Seq<Part<W>> {
    morph::ref_parts(morph_map::refs_view(refs), sidecar::strings_view(targets), mesh, weight)
}

/// Target number `k` is the last of this name.
pub open spec fn last_target(targets: Seq<String>, name: Seq<char>, k: int) -> bool {
    &&& 0 <= k < targets.len()
    &&& targets[k]@ == name
    &&& forall|j: int| k < j < targets.len() ==> (#[trigger] targets[j])@ != name
}

/// No target has this name.
pub open spec fn no_target(targets: Seq<String>, name: Seq<char>) -> bool {
    forall|j: int| 0 <= j < targets.len() ==> (#[trigger] targets[j])@ != name
}

/// One of these names is `name`.
pub open spec fn among(names: Seq<String>, name: Seq<char>) -> bool {
    exists|k: int| 0 <= k < names.len() && (#[trigger] names[k])@ == name
}

/// A target is found by its name, the last one where several have it.
pub proof fn law_targets_by_name(targets: Seq<String>, name: Seq<char>, k: int)
    ensures
        last_target(targets, name, k) ==> morph::target_index(
            sidecar::strings_view(targets),
            name,
        ) == Some(k as nat),
        no_target(targets, name) ==> morph::target_index(sidecar::strings_view(targets), name)
            is None,
    decreases targets.len(),
{
    if targets.len() > 0 {
        let all = sidecar::strings_view(targets);
        let n = targets.len() - 1;
        let init = targets.drop_last();
        assert(all.last() == targets[n]@);
        assert(all.drop_last() =~= sidecar::strings_view(init));
        law_targets_by_name(init, name, k);
        if last_target(targets, name, k) && k < n {
            assert(targets[n]@ != name);
            assert(init[k] == targets[k]);
            assert forall|j: int| k < j < init.len() implies (#[trigger] init[j])@ != name by {
                assert(init[j] == targets[j]);
            }
        }
        if no_target(targets, name) {
            assert(targets[n]@ != name);
            assert forall|j: int| 0 <= j < init.len() implies (#[trigger] init[j])@ != name by {
                assert(init[j] == targets[j]);
            }
        }
    }
}

/// A channel's references contribute one after the other: one more reference adds one
/// contribution where it is meant for this mesh and the mesh has its target, with the
/// channel's weight and the reference's own factor, and nothing elsewhere.
pub proof fn law_references_one_by_one<W>(
    refs: Seq<MorphRef>,
    r: MorphRef,
    targets: Seq<String>,
    mesh: Seq<char>,
    weight: W,
    k: int,
)
    requires
        targets.len() <= usize::MAX,
    ensures
        parts_by(Seq::empty(), targets, mesh, weight).len() == 0,
        among(r.meshes@, mesh) && last_target(targets, r.morph@, k) ==> parts_by(
            refs.push(r),
            targets,
            mesh,
            weight,
        ) == parts_by(refs, targets, mesh, weight).push(
            (Part { at: k as usize, weight, factor: r.weight }),
        ),
        !among(r.meshes@, mesh) || no_target(targets, r.morph@) ==> parts_by(
            refs.push(r),
            targets,
            mesh,
            weight,
        ) == parts_by(refs, targets, mesh, weight),
{
    let all = morph_map::refs_view(refs.push(r));
    assert(all.drop_last() =~= morph_map::refs_view(refs));
    assert(all.last() == r@);
    law_targets_by_name(targets, r.morph@, k);
    let names = r@.meshes;
    if among(r.meshes@, mesh) {
        let i = choose|i: int| 0 <= i < r.meshes@.len() && (#[trigger] r.meshes@[i])@ == mesh;
        assert(names[i] == mesh);
    }
    if names.contains(mesh) {
        let i = choose|i: int| 0 <= i < names.len() && names[i] == mesh;
        assert(r.meshes@[i]@ == mesh);
    }
}

/// The channels of a pose contribute one after the other: one more channel adds
/// nothing where it is not live or not in the map, and else the contributions of its
/// first entry in the map, with its weight.
pub proof fn law_channels_one_by_one<W>(
    weights: Seq<(String, W)>,
    channel: String,
    w: W,
    map: ArkitMap,
    targets: Seq<String>,
    mesh: Seq<char>,
    live: spec_fn(W) -> bool,
    k: int,
)
    requires
        0 <= k <= map.mapping@.len(),
        forall|j: int| 0 <= j < k ==> (#[trigger] map.mapping@[j]).0@ != channel@,
        k < map.mapping@.len() ==> map.mapping@[k].0@ == channel@,
    ensures
        parts_of(Seq::empty(), map, targets, mesh, live).len() == 0,
        ({
            let before = parts_of(weights, map, targets, mesh, live);
            let after = parts_of(weights.push((channel, w)), map, targets, mesh, live);
            &&& !live(w) ==> after == before
            &&& live(w) && k == map.mapping@.len() ==> after == before
            &&& live(w) && k < map.mapping@.len() ==> after == before + parts_by(
                map.mapping@[k].1@,
                targets,
                mesh,
                w,
            )
        }),
{
    let all = morph::weights_view(weights.push((channel, w)));
    assert(all.drop_last() =~= morph::weights_view(weights));
    assert(all.last() == (channel@, w));
    lemma_first_entry(map.mapping@, channel@, k);
    let before = parts_of(weights, map, targets, mesh, live);
    assert(before + Seq::<Part<W>>::empty() =~= before);
    assert(morph::weights_view(Seq::<(String, W)>::empty()) =~= Seq::empty());
}

proof fn lemma_first_entry(mapping: Seq<(String, Vec<MorphRef>)>, channel: Seq<char>, k: int)
    requires
        0 <= k <= mapping.len(),
        forall|j: int| 0 <= j < k ==> (#[trigger] mapping[j]).0@ != channel,
        k < mapping.len() ==> mapping[k].0@ == channel,
    ensures
        k < mapping.len() ==> morph::refs_for(morph_map::channels_view(mapping), channel)
            == morph_map::refs_view(mapping[k].1@),
        k == mapping.len() ==> morph::refs_for(morph_map::channels_view(mapping), channel)
            == Seq::<morph_map::RefView>::empty(),
    decreases mapping.len(),
{
    let all = morph_map::channels_view(mapping);
    if mapping.len() > 0 {
        assert(all[0] == (mapping[0].0@, morph_map::refs_view(mapping[0].1@)));
    }
    if k > 0 {
        assert(mapping[0].0@ != channel);
        let rest = mapping.subrange(1, mapping.len() as int);
        assert(all.subrange(1, all.len() as int) =~= morph_map::channels_view(rest));
        assert forall|j: int| 0 <= j < k - 1 implies (#[trigger] rest[j]).0@ != channel by {
            assert(rest[j] == mapping[j + 1]);
        }
        if k < mapping.len() {
            assert(rest[k - 1] == mapping[k]);
        }
        lemma_first_entry(rest, channel, k - 1);
    }
}

/// Contributions are added one after the other, each to its own target: the weight
/// there is mixed with the contribution's weight by its factor, and all others stay.
pub proof fn law_contributions_add_up<W>(
    start: Seq<W>,
    parts: Seq<Part<W>>,
    p: Part<W>,
    mix: spec_fn(W, W, Num) -> W,
    i: int,
)
    requires
        morph::blended(start, parts, mix).len() == start.len(),
        0 <= i < start.len(),
        p.at < start.len(),
    ensures
        morph::blended(start, Seq::empty(), mix) == start,
        ({
            let before = morph::blended(start, parts, mix);
            let after = morph::blended(start, parts.push(p), mix);
            &&& after.len() == start.len()
            &&& i == p.at ==> after[i] == mix(before[i], p.weight, p.factor)
            &&& i != p.at ==> after[i] == before[i]
        }),
{
    assert(parts.push(p).drop_last() =~= parts);
}

/// What the supplied functions stand for, argument by argument.
pub proof fn law_supplied_weights<W, L: Fn(W) -> bool, M: Fn(W, W, Num) -> W>(
    live: L,
    l: spec_fn(W) -> bool,
    mix: M,
    m: spec_fn(W, W, Num) -> W,
)
    ensures
        morph::sorts_out(live, l) <==> forall|w: W, r: bool| #[trigger]
            call_ensures(live, (w,), r) ==> r == l(w),
        morph::mixes(mix, m) <==> forall|a: W, b: W, f: Num, r: W| #[trigger]
            call_ensures(mix, (a, b, f), r) ==> r == m(a, b, f),
{
}

/// The part that is mirrored changes only for a part that has as many targets as the
/// parent has weights and, once one is chosen, more contributions than those looked
/// at since.
pub proof fn law_mirror_part_by_part(parts: Seq<PartReport>, p: PartReport, parent_len: nat)
    ensures
        morph::mirrored(Seq::empty(), parent_len).1 is None,
        ({
            let (hits, chosen) = morph::mirrored(parts, parent_len);
            let (more, next) = morph::mirrored(parts.push(p), parent_len);
            &&& chosen is None || p.hits > hits ==> more == p.hits
            &&& (chosen is None || p.hits > hits) && p.targets == parent_len ==> next == Some(
                parts.len(),
            )
            &&& p.targets != parent_len ==> next == chosen
            &&& chosen is Some && p.hits <= hits ==> more == hits && next == chosen
        }),
{
    assert(parts.push(p).drop_last() =~= parts);
}

/// Weights are spoken of by channel name and value, in order.
pub proof fn law_weights_by_contents<W>(pose: ArkitPose<W>, i: int)
    ensures
        morph::weights_view(pose.weights@).len() == pose.weights@.len(),
        0 <= i < pose.weights@.len() ==> morph::weights_view(pose.weights@)[i] == (
            pose.weights@[i].0@,
            pose.weights@[i].1,
        ),
{
}

} // verus!
