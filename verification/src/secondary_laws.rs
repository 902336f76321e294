//! What holds of secondary motion, told by the names of the bones.
use crate::cc5_json;
use crate::cc5_json::{Cc5BreastTuning, Cc5SoftPhysics};
use crate::json::Num;
use crate::lowercase;
use crate::pattern;
use crate::secondary;
use crate::secondary::{
    BoneEntry, BoneWrite, JiggleBone, JiggleMode, PlanView, Stiffness, StrayLimit,
};
use crate::sidecar;
use crate::sidecar::{ChainView, JiggleChainRaw, SecondaryMotionRaw};
use crate::text;
use vstd::prelude::*;

verus! {

/// A pattern compiles and finds a match in `name`.
pub open spec fn finds(pattern: Seq<char>, name: Seq<char>) -> bool {
    pattern::language(pattern) matches Some(l) && l.contains(name)
}

/// A name matches a list of patterns when one of them compiles and finds a match.
pub proof fn law_one_match_is_enough(patterns: Seq<Seq<char>>, name: Seq<char>)
    ensures
        pattern::hit(pattern::languages(patterns), name) <==> exists|i: int|
            0 <= i < patterns.len() && finds(#[trigger] patterns[i], name),
    decreases patterns.len(),
{
    let langs = pattern::languages(patterns);
    if patterns.len() > 0 {
        let init = patterns.drop_last();
        let last = patterns.len() - 1;
        law_one_match_is_enough(init, name);
        let some = pattern::languages(init);
        if exists|i: int| 0 <= i < patterns.len() && finds(#[trigger] patterns[i], name) {
            let i = choose|i: int| 0 <= i < patterns.len() && finds(#[trigger] patterns[i], name);
            if i < last {
                assert(init[i] == patterns[i]);
                let j = choose|j: int| 0 <= j < some.len() && (#[trigger] some[j]).contains(name);
                assert(langs[j] == some[j]);
            } else {
                assert(langs[langs.len() - 1].contains(name));
            }
        }
        if pattern::hit(langs, name) {
            let j = choose|j: int| 0 <= j < langs.len() && (#[trigger] langs[j]).contains(name);
            if j < some.len() {
                assert(some[j] == langs[j]);
                assert(pattern::hit(some, name));
                let i = choose|i: int| 0 <= i < init.len() && finds(#[trigger] init[i], name);
                assert(patterns[i] == init[i]);
            } else {
                assert(finds(patterns[last], name));
            }
        }
    }
}

/// Where no sidecar speaks of secondary motion, a name moves when it is that of
/// hair, of a breast, of a skirt, of the tongue or of the seat.
pub proof fn law_what_moves_without_a_sidecar(name: Seq<char>)
    ensures
        pattern::hit(pattern::languages(secondary::patterns_in_force(None)), name) <==> {
            ||| finds("^CC_Base_Hair_.*"@, name)
            ||| finds(".*Breast.*"@, name)
            ||| finds("^Skirt_.*"@, name)
            ||| finds("^CC_Base_Tongue.*"@, name)
            ||| finds(".*Glute.*"@, name)
            ||| finds(".*Buttock.*"@, name)
        },
{
    let all = secondary::patterns_in_force(None);
    law_one_match_is_enough(all, name);
    assert(all[0] == "^CC_Base_Hair_.*"@);
    assert(all[1] == ".*Breast.*"@);
    assert(all[2] == "^Skirt_.*"@);
    assert(all[3] == "^CC_Base_Tongue.*"@);
    assert(all[4] == ".*Glute.*"@);
    assert(all[5] == ".*Buttock.*"@);
    assert(all.len() == 6);
}

/// Where a sidecar speaks of secondary motion, its patterns alone decide.
pub proof fn law_what_moves_with_a_sidecar(motion: &SecondaryMotionRaw, name: Seq<char>)
    ensures
        pattern::hit(pattern::languages(secondary::patterns_in_force(Some(motion))), name)
            <==> exists|i: int|
            0 <= i < motion.auto_detect_patterns@.len() && finds(
                (#[trigger] motion.auto_detect_patterns@[i])@,
                name,
            ),
{
    let all = secondary::patterns_in_force(Some(motion));
    law_one_match_is_enough(all, name);
    if exists|i: int|
        0 <= i < motion.auto_detect_patterns@.len() && finds(
            (#[trigger] motion.auto_detect_patterns@[i])@,
            name,
        ) {
        let i = choose|i: int|
            0 <= i < motion.auto_detect_patterns@.len() && finds(
                (#[trigger] motion.auto_detect_patterns@[i])@,
                name,
            );
        assert(finds(all[i], name));
    }
    if exists|i: int| 0 <= i < all.len() && finds(#[trigger] all[i], name) {
        let i = choose|i: int| 0 <= i < all.len() && finds(#[trigger] all[i], name);
        assert(all[i] == motion.auto_detect_patterns@[i]@);
    }
}

/// The plans for an avatar, as they are made for its bones.
pub open spec fn planned(
    bones: Seq<BoneEntry>,
    motion: Option<&SecondaryMotionRaw>,
    hair: Option<Cc5SoftPhysics>,
    breast_mass: Num,
) -> Seq<PlanView> {
    secondary::plans(
        secondary::bones_view(bones),
        pattern::languages(secondary::patterns_in_force(motion)),
        secondary::chains_in_force(motion),
        hair,
        breast_mass,
    )
}

/// Plans are made bone by bone: no bones, no plans; one more bone adds one plan
/// behind the others exactly where it has a parent and a name that moves, and that
/// plan is for this bone under this parent.
pub proof fn law_one_plan_per_moving_bone(
    bones: Seq<BoneEntry>,
    bone: BoneEntry,
    motion: Option<&SecondaryMotionRaw>,
    hair: Option<Cc5SoftPhysics>,
    breast_mass: Num,
)
    ensures
        planned(Seq::empty(), motion, hair, breast_mass).len() == 0,
        ({
            let before = planned(bones, motion, hair, breast_mass);
            let after = planned(bones.push(bone), motion, hair, breast_mass);
            let moves = pattern::hit(
                pattern::languages(secondary::patterns_in_force(motion)),
                bone.name@,
            );
            &&& bone.parent is None ==> after == before
            &&& !moves ==> after == before
            &&& moves && bone.parent is Some ==> {
                &&& after.len() == before.len() + 1
                &&& after.drop_last() == before
                &&& after.last() == plan_of(bone, motion, hair, breast_mass)
                &&& after.last().entity == bone.entity
                &&& after.last().name == bone.name@
                &&& bone.parent == Some(after.last().parent)
            }
        }),
{
    let langs = pattern::languages(secondary::patterns_in_force(motion));
    let chains = secondary::chains_in_force(motion);
    let old = secondary::bones_view(bones);
    let new = secondary::bones_view(bones.push(bone));
    let n = bones.len() as int;
    assert(new.drop_last() =~= old);
    assert(new[n] == bone@);
    lemma_marks_of_the_rest(
        old,
        secondary::marks(old, langs),
        secondary::marks(new, langs),
        secondary::lower_names(old),
        secondary::lower_names(new),
        chains,
        hair,
        breast_mass,
    );
    let before = planned(bones, motion, hair, breast_mass);
    let after = planned(bones.push(bone), motion, hair, breast_mass);
    if secondary::marks(new, langs)[n] && bone.parent is Some {
        assert(after.drop_last() =~= before);
    }
    assert(secondary::bones_view(Seq::<BoneEntry>::empty()) =~= Seq::empty());
}

/// The plan for one bone.
pub open spec fn plan_of(
    bone: BoneEntry,
    motion: Option<&SecondaryMotionRaw>,
    hair: Option<Cc5SoftPhysics>,
    breast_mass: Num,
) -> PlanView {
    secondary::plan_for(
        bone@,
        bone.parent->0,
        lowercase::lowered(bone.name@),
        secondary::chains_in_force(motion),
        hair,
        breast_mass,
    )
}

/// Marks and names behind a list of bones do not matter to its plans.
proof fn lemma_marks_of_the_rest(
    bones: Seq<secondary::BoneView>,
    marked: Seq<bool>,
    more_marked: Seq<bool>,
    lowered: Seq<Seq<char>>,
    more_lowered: Seq<Seq<char>>,
    chains: Seq<ChainView>,
    hair: Option<Cc5SoftPhysics>,
    breast_mass: Num,
)
    requires
        marked.len() >= bones.len(),
        lowered.len() >= bones.len(),
        more_marked.len() >= bones.len(),
        more_lowered.len() >= bones.len(),
        forall|i: int| 0 <= i < bones.len() ==> #[trigger] marked[i] == more_marked[i],
        forall|i: int| 0 <= i < bones.len() ==> #[trigger] lowered[i] == more_lowered[i],
    ensures
        secondary::plans_where(bones, marked, lowered, chains, hair, breast_mass)
            == secondary::plans_where(
            bones,
            more_marked,
            more_lowered,
            chains,
            hair,
            breast_mass,
        ),
    decreases bones.len(),
{
    if bones.len() > 0 {
        let last = bones.len() - 1;
        lemma_marks_of_the_rest(
            bones.drop_last(),
            marked,
            more_marked,
            lowered,
            more_lowered,
            chains,
            hair,
            breast_mass,
        );
        assert(marked[last] == more_marked[last]);
        assert(lowered[last] == more_lowered[last]);
    }
}

/// Every skirt bone with a parent swings where no sidecar speaks of secondary
/// motion, wherever it stands among the bones; so do hair, breast, tongue and seat
/// bones.
pub proof fn law_skirts_swing_without_a_sidecar(
    bones: Seq<BoneEntry>,
    k: int,
    hair: Option<Cc5SoftPhysics>,
    breast_mass: Num,
)
    requires
        0 <= k < bones.len(),
        bones[k].parent is Some,
        finds("^Skirt_.*"@, bones[k].name@) || finds("^CC_Base_Hair_.*"@, bones[k].name@) || finds(
            ".*Breast.*"@,
            bones[k].name@,
        ) || finds("^CC_Base_Tongue.*"@, bones[k].name@) || finds(".*Glute.*"@, bones[k].name@)
            || finds(".*Buttock.*"@, bones[k].name@),
    ensures
        exists|i: int|
            0 <= i < planned(bones, None, hair, breast_mass).len() && (#[trigger] planned(
                bones,
                None,
                hair,
                breast_mass,
            )[i]).entity == bones[k].entity && planned(bones, None, hair, breast_mass)[i].name
                == bones[k].name@ && Some(planned(bones, None, hair, breast_mass)[i].parent)
                == bones[k].parent,
    decreases bones.len(),
{
    let init = bones.drop_last();
    let last = bones.last();
    let all = planned(bones, None, hair, breast_mass);
    let before = planned(init, None, hair, breast_mass);
    assert(init.push(last) =~= bones);
    law_one_plan_per_moving_bone(init, last, None, hair, breast_mass);
    law_what_moves_without_a_sidecar(bones[k].name@);
    if k < init.len() {
        law_skirts_swing_without_a_sidecar(init, k, hair, breast_mass);
        let i = choose|i: int|
            0 <= i < before.len() && (#[trigger] before[i]).entity == init[k].entity
                && before[i].name == init[k].name@ && Some(before[i].parent) == init[k].parent;
        assert(all[i] == before[i]);
    } else {
        assert(all[all.len() - 1].entity == bones[k].entity);
    }
}

/// Breast bones shift, all others turn.
pub proof fn law_breasts_shift_and_the_rest_turns(
    bone: BoneEntry,
    motion: Option<&SecondaryMotionRaw>,
    hair: Option<Cc5SoftPhysics>,
    breast_mass: Num,
)
    ensures
        ({
            let p = plan_of(bone, motion, hair, breast_mass);
            let lower = lowercase::lowered(bone.name@);
            &&& text::contains(lower, "breast"@) ==> p.mode == JiggleMode::Translation
            &&& !text::contains(lower, "breast"@) ==> p.mode == JiggleMode::Rotation
        }),
{
}

/// The sidecar's first override for a bone's name gives all values of its body, the
/// mass of a breast too.
pub proof fn law_first_override_counts(
    bone: BoneEntry,
    motion: &SecondaryMotionRaw,
    j: int,
    hair: Option<Cc5SoftPhysics>,
    breast_mass: Num,
)
    requires
        0 <= j < motion.chains_override@.len(),
        motion.chains_override@[j].root_bone@ == bone.name@,
        forall|i: int|
            0 <= i < j ==> (#[trigger] motion.chains_override@[i]).root_bone@ != bone.name@,
    ensures
        ({
            let p = plan_of(bone, Some(motion), hair, breast_mass);
            let c = motion.chains_override@[j];
            &&& p.tuning.stiffness == Stiffness::Given(c.stiffness)
            &&& p.tuning.damping == c.damping
            &&& p.tuning.mass == c.mass_per_link
            &&& p.tuning.radius == c.collider_radius
            &&& p.mass == c.mass_per_link
        }),
{
    lemma_first_chain(motion.chains_override@, bone.name@, j);
}

proof fn lemma_first_chain(chains: Seq<JiggleChainRaw>, name: Seq<char>, j: int)
    requires
        0 <= j < chains.len(),
        chains[j].root_bone@ == name,
        forall|i: int| 0 <= i < j ==> (#[trigger] chains[i]).root_bone@ != name,
    ensures
        secondary::chain_for(sidecar::chains_view(chains), name) == Some(chains[j]@),
    decreases chains.len(),
{
    let all = sidecar::chains_view(chains);
    assert(all[0] == chains[0]@);
    if j > 0 {
        assert(chains[0].root_bone@ != name);
        let rest = chains.subrange(1, chains.len() as int);
        assert(all.subrange(1, all.len() as int) =~= sidecar::chains_view(rest));
        assert(rest[j - 1] == chains[j]);
        assert forall|i: int| 0 <= i < j - 1 implies (#[trigger] rest[i]).root_bone@ != name by {
            assert(rest[i] == chains[i + 1]);
        }
        lemma_first_chain(rest, name, j - 1);
    }
}

proof fn lemma_no_chain(chains: Seq<JiggleChainRaw>, name: Seq<char>)
    requires
        forall|i: int| 0 <= i < chains.len() ==> (#[trigger] chains[i]).root_bone@ != name,
    ensures
        secondary::chain_for(sidecar::chains_view(chains), name) is None,
    decreases chains.len(),
{
    let all = sidecar::chains_view(chains);
    if chains.len() > 0 {
        assert(all[0] == chains[0]@);
        assert(chains[0].root_bone@ != name);
        let rest = chains.subrange(1, chains.len() as int);
        assert(all.subrange(1, all.len() as int) =~= sidecar::chains_view(rest));
        assert forall|i: int| 0 <= i < rest.len() implies (#[trigger] rest[i]).root_bone@
            != name by {
            assert(rest[i] == chains[i + 1]);
        }
        lemma_no_chain(rest, name);
    }
}

/// Without an override, hair takes the avatar's hair values where it has them, and
/// every other body the defaults: stiffness 30, damping 2.5, 0.3 kg, 4 cm. Breasts
/// have a mass of their own.
pub proof fn law_values_without_an_override(
    bone: BoneEntry,
    motion: Option<&SecondaryMotionRaw>,
    hair: Option<Cc5SoftPhysics>,
    breast_mass: Num,
)
    requires
        motion matches Some(m) ==> forall|i: int|
            0 <= i < m.chains_override@.len() ==> (#[trigger] m.chains_override@[i]).root_bone@
                != bone.name@,
    ensures
        ({
            let p = plan_of(bone, motion, hair, breast_mass);
            let lower = lowercase::lowered(bone.name@);
            &&& p.tuning.radius == Num::Thousandths(40)
            &&& text::contains(lower, "hair"@) ==> (hair matches Some(h) ==> {
                &&& p.tuning.stiffness == Stiffness::Resonant(h.stiffness_freq_hz)
                &&& p.tuning.damping == h.damping
                &&& p.tuning.mass == h.mass
            })
            &&& !text::contains(lower, "hair"@) || hair is None ==> {
                &&& p.tuning.stiffness == Stiffness::Given(Num::Thousandths(30000))
                &&& p.tuning.damping == Num::Thousandths(2500)
                &&& p.tuning.mass == Num::Thousandths(300)
            }
            &&& text::contains(lower, "breast"@) ==> p.mass == breast_mass
            &&& !text::contains(lower, "breast"@) ==> p.mass == p.tuning.mass
        }),
{
    match motion {
        Some(m) => {
            lemma_no_chain(m.chains_override@, bone.name@);
        },
        None => {},
    }
}

/// Each value of the shifting bodies comes from the hand-written block, else from the
/// avatar's own data, else it is 2 kg, stiffness 80, damping 0.3 and 20 cm.
pub proof fn law_breast_values<R>(
    tuning: Cc5BreastTuning,
    soft: Option<Cc5SoftPhysics>,
    radius: Option<R>,
)
    ensures
        ({
            let b = secondary::breast_for(tuning, soft, radius);
            &&& tuning.mass matches Some(x) ==> b.mass == x
            &&& tuning.linear_stiffness matches Some(x) ==> b.stiffness == Stiffness::Given(x)
            &&& tuning.linear_damping matches Some(x) ==> b.damping == x
            &&& tuning.translation_limit matches Some(x) ==> b.limit == StrayLimit::<R>::Given(x)
            &&& soft matches Some(s) ==> {
                &&& tuning.mass is None ==> b.mass == s.mass
                &&& tuning.linear_stiffness is None ==> b.stiffness == Stiffness::Resonant(
                    s.stiffness_freq_hz,
                )
                &&& tuning.linear_damping is None ==> b.damping == s.damping
            }
            &&& soft is None ==> {
                &&& tuning.mass is None ==> b.mass == Num::Thousandths(2000)
                &&& tuning.linear_stiffness is None ==> b.stiffness == Stiffness::Given(
                    Num::Thousandths(80000),
                )
                &&& tuning.linear_damping is None ==> b.damping == Num::Thousandths(300)
            }
            &&& tuning.translation_limit is None ==> {
                &&& radius matches Some(r) ==> b.limit == StrayLimit::SixTenthsOf(r)
                &&& radius is None ==> b.limit == StrayLimit::<R>::Given(Num::Thousandths(200))
            }
        }),
        cc5_json::no_tuning().mass is None,
        cc5_json::no_tuning().linear_stiffness is None,
        cc5_json::no_tuning().linear_damping is None,
        cc5_json::no_tuning().translation_limit is None,
{
}

/// Detection goes bone by bone and keeps the order: one more bone is added behind the
/// others exactly where one of the patterns finds a match in its name.
pub proof fn law_detection_goes_bone_by_bone(
    bones: Seq<(u64, String)>,
    bone: (u64, String),
    patterns: Seq<regex::Regex>,
)
    ensures
        ({
            let langs = pattern::all_matched(patterns);
            let before = secondary::detected(secondary::named(bones), langs);
            let after = secondary::detected(secondary::named(bones.push(bone)), langs);
            let found = exists|i: int|
                0 <= i < patterns.len() && pattern::matched_by(#[trigger] patterns[i]).contains(
                    bone.1@,
                );
            &&& found ==> after == before.push((bone.0, bone.1@))
            &&& !found ==> after == before
        }),
        secondary::detected(
            secondary::named(Seq::empty()),
            pattern::all_matched(patterns),
        ).len() == 0,
{
    let langs = pattern::all_matched(patterns);
    let new = secondary::named(bones.push(bone));
    assert(new.drop_last() =~= secondary::named(bones));
    assert(new.last() == (bone.0, bone.1@));
    if exists|i: int|
        0 <= i < patterns.len() && pattern::matched_by(#[trigger] patterns[i]).contains(bone.1@) {
        let i = choose|i: int|
            0 <= i < patterns.len() && pattern::matched_by(#[trigger] patterns[i]).contains(
                bone.1@,
            );
        assert(langs[i] == pattern::matched_by(patterns[i]));
    }
    if pattern::hit(langs, bone.1@) {
        let i = choose|i: int| 0 <= i < langs.len() && (#[trigger] langs[i]).contains(bone.1@);
        assert(langs[i] == pattern::matched_by(patterns[i]));
    }
}

/// A turning bone takes its body's rotation; a shifting bone stands off its bind
/// position by as much as its body stands off the anchor.
pub proof fn law_bones_follow_their_bodies<Q, V>(
    bone: JiggleBone<Q, V>,
    rotation: Q,
    body: V,
    anchor: V,
    strayed: V,
    plus: spec_fn(V, V) -> V,
    minus: spec_fn(V, V) -> V,
)
    requires
        minus(body, anchor) == strayed,
    ensures
        bone.mode == JiggleMode::Rotation ==> secondary::written(
            bone,
            rotation,
            body,
            anchor,
            plus,
            minus,
        ) == BoneWrite::<Q, V>::Rotation(rotation),
        bone.mode == JiggleMode::Translation ==> secondary::written(
            bone,
            rotation,
            body,
            anchor,
            plus,
            minus,
        ) == BoneWrite::<Q, V>::Translation(plus(bone.bone_bind_translation, strayed)),
{
}

} // verus!
