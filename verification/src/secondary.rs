//! Secondary motion: which bones swing by themselves, and how.
use crate::cc5_json;
use crate::cc5_json::{Cc5BreastTuning, Cc5SoftPhysics};
use crate::json::Num;
use crate::lowercase;
use crate::pattern;
use crate::retarget;
use crate::sidecar;
use crate::sidecar::{ChainView, JiggleChainRaw, SecondaryMotionRaw};
use crate::text;
use vstd::prelude::*;
use vstd::string::*;

verus! {

/// How the motion of a body is written back to its bone.
#[derive(Clone, Copy, Debug, PartialEq, Eq, Structural)]
pub enum JiggleMode {
    /// The bone turns with the body.
    Rotation,
    /// The bone shifts with the body and keeps its rotation.
    Translation,
}

/// Ties a swinging body to its bone. Positions are of type `V`, rotations of
/// type `Q`.
#[derive(Clone, Debug)]
pub struct JiggleBone<Q, V> {
    pub bone_entity: u64,
    /// The fixed body that the swinging one is pulled to.
    pub anchor_entity: u64,
    pub debug_name: String,
    /// World rotation of the anchor when it was set up.
    pub anchor_world_rest: Q,
    /// Position of the bone in its parent's frame when it was set up.
    pub bone_bind_translation: V,
    pub mode: JiggleMode,
}

/// What is written to a bone.
#[derive(Clone, Copy, Debug, PartialEq, Eq)]
pub enum BoneWrite<Q, V> {
    Rotation(Q),
    Translation(V),
}

/// What a swinging body writes to its bone: its rotation, or the bone's own
/// position shifted by how far the body has strayed from its anchor.
pub open spec fn written<Q, V>(
    bone: JiggleBone<Q, V>,
    body_rotation: Q,
    body_position: V,
    anchor_position: V,
    plus: spec_fn(V, V) -> V,
    minus: spec_fn(V, V) -> V,
) -> BoneWrite<Q, V> {
    match bone.mode {
        JiggleMode::Rotation => BoneWrite::Rotation(body_rotation),
        JiggleMode::Translation => BoneWrite::Translation(
            plus(bone.bone_bind_translation, minus(body_position, anchor_position)),
        ),
    }
}

impl<Q, V> JiggleBone<Q, V> {
    /// What a swinging body writes to its bone.
    pub fn writeback<P: Fn(V, V) -> V, M: Fn(V, V) -> V>(
        &self,
        body_rotation: Q,
        body_position: V,
        anchor_position: V,
        plus: &P,
        minus: &M,
    ) -> (r: BoneWrite<Q, V>) where V: Copy
        requires
            forall|a: V, b: V| call_requires(*plus, (a, b)),
            forall|a: V, b: V| call_requires(*minus, (a, b)),
        ensures
            forall|p: spec_fn(V, V) -> V, m: spec_fn(V, V) -> V| #[trigger]
                retarget::composes(*plus, p) && #[trigger] retarget::composes(*minus, m) ==> r
                    == written(*self, body_rotation, body_position, anchor_position, p, m),
    {
        match self.mode {
            JiggleMode::Rotation => BoneWrite::Rotation(body_rotation),
            JiggleMode::Translation => {
                let strayed: V = minus(body_position, anchor_position);
                BoneWrite::Translation(plus(self.bone_bind_translation, strayed))
            },
        }
    }
}

/// A body at rest on its anchor leaves its bone where it was set up.
pub proof fn law_body_at_rest_keeps_bone<Q, V>(
    bone: JiggleBone<Q, V>,
    rotation: Q,
    at: V,
    plus: spec_fn(V, V) -> V,
    minus: spec_fn(V, V) -> V,
)
    requires
        forall|v: V, w: V| #[trigger] plus(v, minus(w, w)) == v,
    ensures
        written(bone, rotation, at, at, plus, minus) == (match bone.mode {
            JiggleMode::Rotation => BoneWrite::<Q, V>::Rotation(rotation),
            JiggleMode::Translation => BoneWrite::<Q, V>::Translation(bone.bone_bind_translation),
        }),
{
}

/// A bone that may take part.
#[derive(Clone, Debug)]
pub struct BoneEntry {
    pub entity: u64,
    pub name: String,
    pub parent: Option<u64>,
}

/// A bone, as plain mathematics.
#[verifier::ext_equal]
pub struct BoneView {
    pub entity: u64,
    pub name: Seq<char>,
    pub parent: Option<u64>,
}

impl View for BoneEntry {
    type V = BoneView;

    open spec fn view(&self) -> BoneView {
        BoneView { entity: self.entity, name: self.name@, parent: self.parent }
    }
}

/// Stiffness of a spring.
#[derive(Clone, Copy, Debug, PartialEq, Eq, Structural)]
pub enum Stiffness {
    /// As given.
    Given(Num),
    /// `(2 pi f)^2` for this frequency `f` in Hz, times the mass where the
    /// spring is linear.
    Resonant(Num),
}

/// Values of one swinging body.
#[derive(Clone, Copy, Debug, PartialEq, Eq, Structural)]
pub struct JiggleTuning {
    pub stiffness: Stiffness,
    pub damping: Num,
    pub mass: Num,
    pub radius: Num,
}

/// How far a shifting body may stray.
#[derive(Clone, Copy, Debug, PartialEq, Eq)]
pub enum StrayLimit<R> {
    /// As given, in metres.
    Given(Num),
    /// Six tenths of this radius.
    SixTenthsOf(R),
}

/// Values of the shifting bodies.
#[derive(Clone, Copy, Debug, PartialEq, Eq)]
pub struct BreastTuning<R> {
    pub mass: Num,
    pub stiffness: Stiffness,
    pub damping: Num,
    pub limit: StrayLimit<R>,
}

/// What is to be set up for one bone.
#[derive(Clone, Debug)]
pub struct JigglePlan {
    pub entity: u64,
    pub name: String,
    pub parent: u64,
    pub mode: JiggleMode,
    pub tuning: JiggleTuning,
    pub mass: Num,
}

/// A plan, as plain mathematics.
#[verifier::ext_equal]
pub struct PlanView {
    pub entity: u64,
    pub name: Seq<char>,
    pub parent: u64,
    pub mode: JiggleMode,
    pub tuning: JiggleTuning,
    pub mass: Num,
}

impl View for JigglePlan {
    type V = PlanView;

    open spec fn view(&self) -> PlanView {
        PlanView {
            entity: self.entity,
            name: self.name@,
            parent: self.parent,
            mode: self.mode,
            tuning: self.tuning,
            mass: self.mass,
        }
    }
}

/// Name patterns of moving bones where no sidecar speaks of secondary motion.
pub open spec fn built_in_patterns() -> Seq<Seq<char>> {
    seq![
        "^CC_Base_Hair_.*"@,
        ".*Breast.*"@,
        "^Skirt_.*"@,
        "^CC_Base_Tongue.*"@,
        ".*Glute.*"@,
        ".*Buttock.*"@,
    ]
}

/// Name patterns of moving bones where no sidecar speaks of secondary motion.
pub fn built_in() -> (r: Vec<String>)
    ensures
        sidecar::strings_view(r@) == built_in_patterns(),
{
    let mut r: Vec<String> = Vec::new();
    r.push("^CC_Base_Hair_.*".to_owned());
    r.push(".*Breast.*".to_owned());
    r.push("^Skirt_.*".to_owned());
    r.push("^CC_Base_Tongue.*".to_owned());
    r.push(".*Glute.*".to_owned());
    r.push(".*Buttock.*".to_owned());
    assert(sidecar::strings_view(r@) =~= built_in_patterns());
    r
}

/// A list of bones by entity and name.
pub open spec fn named(bones: Seq<(u64, String)>) -> Seq<(u64, Seq<char>)> {
    bones.map_values(|b: (u64, String)| (b.0, b.1@))
}

/// The bones whose name some language holds, in order.
pub open spec fn detected(bones: Seq<(u64, Seq<char>)>, langs: Seq<Set<Seq<char>>>) -> Seq<
    (u64, Seq<char>),
>
    decreases bones.len(),
{
    if bones.len() == 0 {
        Seq::empty()
    } else {
        let init = detected(bones.drop_last(), langs);
        if pattern::hit(langs, bones.last().1) {
            init.push(bones.last())
        } else {
            init
        }
    }
}

/// The bones whose name matches at least one pattern, in order.
pub fn detect_chains(bones: &Vec<(u64, String)>, patterns: &Vec<regex::Regex>) -> (r: Vec<
    (u64, String),
>)
    ensures
        named(r@) == detected(named(bones@), pattern::all_matched(patterns@)),
{
    let ghost all = named(bones@);
    let ghost langs = pattern::all_matched(patterns@);
    let mut out: Vec<(u64, String)> = Vec::new();
    let mut i: usize = 0;
    assert(all.take(0) =~= Seq::<(u64, Seq<char>)>::empty());
    assert(named(out@) =~= Seq::empty());
    while i < bones.len()
        invariant
            i <= bones.len(),
            all == named(bones@),
            langs == pattern::all_matched(patterns@),
            named(out@) == detected(all.take(i as int), langs),
        decreases bones.len() - i,
    {
        let ghost before = out@;
        assert(all.take(i + 1).drop_last() =~= all.take(i as int));
        assert(all[i as int] == (bones@[i as int].0, bones@[i as int].1@));
        if pattern::any_match(patterns, bones[i].1.as_str()) {
            out.push((bones[i].0, bones[i].1.clone()));
            assert(named(out@) =~= named(before).push(all[i as int]));
        }
        i = i + 1;
    }
    assert(all.take(all.len() as int) =~= all);
    out
}

/// The first override for the chain that starts at `name`.
pub open spec fn chain_for(chains: Seq<ChainView>, name: Seq<char>) -> Option<ChainView>
    decreases chains.len(),
{
    if chains.len() == 0 {
        None
    } else if chains[0].root_bone == name {
        Some(chains[0])
    } else {
        chain_for(chains.subrange(1, chains.len() as int), name)
    }
}

/// Values of a soft body without any other source.
pub open spec fn default_tuning() -> JiggleTuning {
    JiggleTuning {
        stiffness: Stiffness::Given(Num::Thousandths(30000)),
        damping: Num::Thousandths(2500),
        mass: Num::Thousandths(300),
        radius: Num::Thousandths(40),
    }
}

/// Values of one body: the override of its chain, else the hair values where
/// its name speaks of hair, else the defaults.
pub open spec fn tuning_for(
    chain: Option<ChainView>,
    hair_like: bool,
    hair: Option<Cc5SoftPhysics>,
) -> JiggleTuning {
    match chain {
        Some(c) => JiggleTuning {
            stiffness: Stiffness::Given(c.stiffness),
            damping: c.damping,
            mass: c.mass_per_link,
            radius: c.collider_radius,
        },
        None => match hair {
            Some(h) => if hair_like {
                JiggleTuning {
                    stiffness: Stiffness::Resonant(h.stiffness_freq_hz),
                    damping: h.damping,
                    mass: h.mass,
                    radius: Num::Thousandths(40),
                }
            } else {
                default_tuning()
            },
            None => default_tuning(),
        },
    }
}

/// The plan for a bone, given its name in lower case.
pub open spec fn plan_for(
    bone: BoneView,
    parent: u64,
    lower: Seq<char>,
    chains: Seq<ChainView>,
    hair: Option<Cc5SoftPhysics>,
    breast_mass: Num,
) -> PlanView {
    let chain = chain_for(chains, bone.name);
    let breast_like = text::contains(lower, "breast"@);
    let tuning = tuning_for(chain, text::contains(lower, "hair"@), hair);
    PlanView {
        entity: bone.entity,
        name: bone.name,
        parent,
        mode: if breast_like {
            JiggleMode::Translation
        } else {
            JiggleMode::Rotation
        },
        tuning,
        mass: if breast_like && chain is None {
            breast_mass
        } else {
            tuning.mass
        },
    }
}

/// The plans for the bones that have a parent and are marked, in order.
/// `lowered` holds the bones' names in lower case.
pub open spec fn plans_where(
    bones: Seq<BoneView>,
    marked: Seq<bool>,
    lowered: Seq<Seq<char>>,
    chains: Seq<ChainView>,
    hair: Option<Cc5SoftPhysics>,
    breast_mass: Num,
) -> Seq<PlanView>
    decreases bones.len(),
{
    if bones.len() == 0 {
        Seq::empty()
    } else {
        let last = bones.len() - 1;
        let init = plans_where(bones.drop_last(), marked, lowered, chains, hair, breast_mass);
        match bones[last].parent {
            Some(parent) => if marked[last] {
                init.push(
                    plan_for(bones[last], parent, lowered[last], chains, hair, breast_mass),
                )
            } else {
                init
            },
            None => init,
        }
    }
}

/// Which bones have a name that some language holds.
pub open spec fn marks(bones: Seq<BoneView>, langs: Seq<Set<Seq<char>>>) -> Seq<bool> {
    bones.map_values(|b: BoneView| pattern::hit(langs, b.name))
}

/// The names of some bones in lower case.
pub open spec fn lower_names(bones: Seq<BoneView>) -> Seq<Seq<char>> {
    bones.map_values(|b: BoneView| lowercase::lowered(b.name))
}

/// The plans for all bones that have a parent and a matching name, in order.
pub open spec fn plans(
    bones: Seq<BoneView>,
    langs: Seq<Set<Seq<char>>>,
    chains: Seq<ChainView>,
    hair: Option<Cc5SoftPhysics>,
    breast_mass: Num,
) -> Seq<PlanView> {
    plans_where(bones, marks(bones, langs), lower_names(bones), chains, hair, breast_mass)
}

/// Values of the shifting bodies. Each comes from the hand-written tuning, else
/// from the body surface or the capsule of the breast, else from a default.
pub open spec fn breast_for<R>(
    tuning: Cc5BreastTuning,
    soft: Option<Cc5SoftPhysics>,
    radius: Option<R>,
) -> BreastTuning<R> {
    BreastTuning {
        mass: match (tuning.mass, soft) {
            (Some(m), _) => m,
            (None, Some(s)) => s.mass,
            (None, None) => Num::Thousandths(2000),
        },
        stiffness: match (tuning.linear_stiffness, soft) {
            (Some(k), _) => Stiffness::Given(k),
            (None, Some(s)) => Stiffness::Resonant(s.stiffness_freq_hz),
            (None, None) => Stiffness::Given(Num::Thousandths(80000)),
        },
        damping: match (tuning.linear_damping, soft) {
            (Some(c), _) => c,
            (None, Some(s)) => s.damping,
            (None, None) => Num::Thousandths(300),
        },
        limit: match (tuning.translation_limit, radius) {
            (Some(l), _) => StrayLimit::Given(l),
            (None, Some(r)) => StrayLimit::SixTenthsOf(r),
            (None, None) => StrayLimit::Given(Num::Thousandths(200)),
        },
    }
}

/// Resolves the values of the shifting bodies.
pub fn resolve_breast_tuning<R>(
    tuning: Option<Cc5BreastTuning>,
    soft: Option<Cc5SoftPhysics>,
    radius: Option<R>,
) -> (r: BreastTuning<R>)
    ensures
        r == breast_for(
            match tuning {
                Some(t) => t,
                None => cc5_json::no_tuning(),
            },
            soft,
            radius,
        ),
{
    let t: Cc5BreastTuning = match tuning {
        Some(t) => t,
        None => Cc5BreastTuning::default(),
    };
    BreastTuning {
        mass: match (t.mass, soft) {
            (Some(m), _) => m,
            (None, Some(s)) => s.mass,
            (None, None) => Num::Thousandths(2000),
        },
        stiffness: match (t.linear_stiffness, soft) {
            (Some(k), _) => Stiffness::Given(k),
            (None, Some(s)) => Stiffness::Resonant(s.stiffness_freq_hz),
            (None, None) => Stiffness::Given(Num::Thousandths(80000)),
        },
        damping: match (t.linear_damping, soft) {
            (Some(c), _) => c,
            (None, Some(s)) => s.damping,
            (None, None) => Num::Thousandths(300),
        },
        limit: match (t.translation_limit, radius) {
            (Some(l), _) => StrayLimit::Given(l),
            (None, Some(r)) => StrayLimit::SixTenthsOf(r),
            (None, None) => StrayLimit::Given(Num::Thousandths(200)),
        },
    }
}

/// The first override for the chain that starts at `name`.
fn find_chain<'a>(chains: &'a Vec<JiggleChainRaw>, name: &str) -> (r: Option<&'a JiggleChainRaw>)
    ensures
        r is Some == chain_for(sidecar::chains_view(chains@), name@) is Some,
        r matches Some(c) ==> Some(c@) == chain_for(sidecar::chains_view(chains@), name@),
{
    let ghost all = sidecar::chains_view(chains@);
    let mut i: usize = 0;
    assert(all.subrange(0, all.len() as int) =~= all);
    while i < chains.len()
        invariant
            i <= chains.len(),
            all == sidecar::chains_view(chains@),
            chain_for(all, name@) == chain_for(all.subrange(i as int, all.len() as int), name@),
        decreases chains.len() - i,
    {
        let ghost rest = all.subrange(i as int, all.len() as int);
        assert(rest[0] == chains@[i as int]@);
        if text::same(chains[i].root_bone.as_str(), name) {
            return Some(&chains[i]);
        }
        assert(rest.subrange(1, rest.len() as int) =~= all.subrange(i + 1, all.len() as int));
        i = i + 1;
    }
    None
}

/// The plan for one bone, given its name in lower case.
pub fn plan_bone(
    bone: &BoneEntry,
    parent: u64,
    lower: &str,
    chains: &Vec<JiggleChainRaw>,
    hair: Option<Cc5SoftPhysics>,
    breast_mass: Num,
) -> (r: JigglePlan)
    ensures
        r@ == plan_for(
            bone@,
            parent,
            lower@,
            sidecar::chains_view(chains@),
            hair,
            breast_mass,
        ),
{
    let chain: Option<&JiggleChainRaw> = find_chain(chains, bone.name.as_str());
    let hair_like: bool = text::has(lower, "hair");
    let breast_like: bool = text::has(lower, "breast");
    let default = JiggleTuning {
        stiffness: Stiffness::Given(Num::Thousandths(30000)),
        damping: Num::Thousandths(2500),
        mass: Num::Thousandths(300),
        radius: Num::Thousandths(40),
    };
    let tuning: JiggleTuning = match chain {
        Some(c) => JiggleTuning {
            stiffness: Stiffness::Given(c.stiffness),
            damping: c.damping,
            mass: c.mass_per_link,
            radius: c.collider_radius,
        },
        None => match hair {
            Some(h) => if hair_like {
                JiggleTuning {
                    stiffness: Stiffness::Resonant(h.stiffness_freq_hz),
                    damping: h.damping,
                    mass: h.mass,
                    radius: Num::Thousandths(40),
                }
            } else {
                default
            },
            None => default,
        },
    };
    let mass: Num = if breast_like && chain.is_none() {
        breast_mass
    } else {
        tuning.mass
    };
    JigglePlan {
        entity: bone.entity,
        name: bone.name.clone(),
        parent,
        mode: if breast_like {
            JiggleMode::Translation
        } else {
            JiggleMode::Rotation
        },
        tuning,
        mass,
    }
}

/// The views of a list of bones.
pub open spec fn bones_view(bones: Seq<BoneEntry>) -> Seq<BoneView> {
    bones.map_values(|b: BoneEntry| b@)
}

/// The views of a list of plans.
pub open spec fn plans_view(plans: Seq<JigglePlan>) -> Seq<PlanView> {
    plans.map_values(|p: JigglePlan| p@)
}

/// Patterns in force: those of the sidecar's section, else the built-in ones.
pub open spec fn patterns_in_force(motion: Option<&SecondaryMotionRaw>) -> Seq<Seq<char>> {
    match motion {
        Some(m) => m@.patterns,
        None => built_in_patterns(),
    }
}

/// Chain overrides in force.
pub open spec fn chains_in_force(motion: Option<&SecondaryMotionRaw>) -> Seq<ChainView> {
    match motion {
        Some(m) => m@.chains,
        None => Seq::empty(),
    }
}

/// Plans the secondary motion of the bones that are marked and have a parent.
/// `lowered` holds the bones' names in lower case.
pub fn plan_bones(
    bones: &Vec<BoneEntry>,
    marked: &Vec<bool>,
    lowered: &Vec<String>,
    chains: &Vec<JiggleChainRaw>,
    hair: Option<Cc5SoftPhysics>,
    breast_mass: Num,
) -> (r: Vec<JigglePlan>)
    requires
        marked@.len() == bones@.len(),
        lowered@.len() == bones@.len(),
    ensures
        plans_view(r@) == plans_where(
            bones_view(bones@),
            marked@,
            sidecar::strings_view(lowered@),
            sidecar::chains_view(chains@),
            hair,
            breast_mass,
        ),
{
    let ghost all = bones_view(bones@);
    let ghost names = sidecar::strings_view(lowered@);
    let ghost chain_views = sidecar::chains_view(chains@);
    let mut out: Vec<JigglePlan> = Vec::new();
    let mut i: usize = 0;
    assert(all.take(0) =~= Seq::<BoneView>::empty());
    assert(plans_view(out@) =~= Seq::empty());
    while i < bones.len()
        invariant
            i <= bones.len(),
            marked@.len() == bones@.len(),
            lowered@.len() == bones@.len(),
            all == bones_view(bones@),
            names == sidecar::strings_view(lowered@),
            chain_views == sidecar::chains_view(chains@),
            plans_view(out@) == plans_where(
                all.take(i as int),
                marked@,
                names,
                chain_views,
                hair,
                breast_mass,
            ),
        decreases bones.len() - i,
    {
        let ghost before = out@;
        assert(all.take(i + 1).drop_last() =~= all.take(i as int));
        assert(all.take(i + 1)[i as int] == bones@[i as int]@);
        assert(names[i as int] == lowered@[i as int]@);
        if let Some(parent) = bones[i].parent {
            if marked[i] {
                let plan: JigglePlan = plan_bone(
                    &bones[i],
                    parent,
                    lowered[i].as_str(),
                    chains,
                    hair,
                    breast_mass,
                );
                out.push(plan);
                assert(plans_view(out@) =~= plans_view(before).push(plan@));
            }
        }
        i = i + 1;
    }
    assert(all.take(all.len() as int) =~= all);
    out
}

/// Plans the secondary motion of an avatar: every bone with a parent whose name
/// matches a pattern swings, tuned by the best source there is.
pub fn auto_detect_chains(
    bones: &Vec<BoneEntry>,
    motion: Option<&SecondaryMotionRaw>,
    hair: Option<Cc5SoftPhysics>,
    breast_mass: Num,
) -> (r: Vec<JigglePlan>)
    ensures
        plans_view(r@) == plans(
            bones_view(bones@),
            pattern::languages(patterns_in_force(motion)),
            chains_in_force(motion),
            hair,
            breast_mass,
        ),
{
    let compiled: Vec<regex::Regex> = match motion {
        Some(m) => pattern::compile_all(&m.auto_detect_patterns),
        None => pattern::compile_all(&built_in()),
    };
    let none: Vec<JiggleChainRaw> = Vec::new();
    assert(sidecar::chains_view(none@) =~= Seq::empty());
    let chains: &Vec<JiggleChainRaw> = match motion {
        Some(m) => &m.chains_override,
        None => &none,
    };
    let ghost langs = pattern::languages(patterns_in_force(motion));
    let ghost all = bones_view(bones@);
    let mut marked: Vec<bool> = Vec::new();
    let mut lowered: Vec<String> = Vec::new();
    let mut i: usize = 0;
    while i < bones.len()
        invariant
            i <= bones.len(),
            all == bones_view(bones@),
            langs == pattern::all_matched(compiled@),
            marked@.len() == i,
            lowered@.len() == i,
            forall|k: int| 0 <= k < i ==> #[trigger] marked@[k] == pattern::hit(langs, all[k].name),
            forall|k: int|
                0 <= k < i ==> (#[trigger] lowered@[k])@ == lowercase::lowered(all[k].name),
        decreases bones.len() - i,
    {
        assert(all[i as int] == bones@[i as int]@);
        marked.push(pattern::any_match(&compiled, bones[i].name.as_str()));
        lowered.push(lowercase::lower(bones[i].name.as_str()));
        i = i + 1;
    }
    assert(marked@ =~= marks(all, langs));
    assert(sidecar::strings_view(lowered@) =~= lower_names(all));
    plan_bones(bones, &marked, &lowered, chains, hair, breast_mass)
}

/// A detected bone is one of the given bones, and its name matches.
pub proof fn law_detected_match(bones: Seq<(u64, Seq<char>)>, langs: Seq<Set<Seq<char>>>, i: int)
    requires
        0 <= i < detected(bones, langs).len(),
    ensures
        bones.contains(detected(bones, langs)[i]),
        pattern::hit(langs, detected(bones, langs)[i].1),
    decreases bones.len(),
{
    if bones.len() > 0 {
        let init = bones.drop_last();
        let kept = detected(init, langs);
        if i < kept.len() {
            law_detected_match(init, langs, i);
            let k = choose|k: int| 0 <= k < init.len() && init[k] == kept[i];
            assert(bones[k] == kept[i]);
        } else {
            assert(bones[bones.len() - 1] == detected(bones, langs)[i]);
        }
    }
}

/// Every bone whose name matches is detected.
pub proof fn law_matches_detected(bones: Seq<(u64, Seq<char>)>, langs: Seq<Set<Seq<char>>>, k: int)
    requires
        0 <= k < bones.len(),
        pattern::hit(langs, bones[k].1),
    ensures
        detected(bones, langs).contains(bones[k]),
    decreases bones.len(),
{
    let init = bones.drop_last();
    let all = detected(bones, langs);
    if k < bones.len() - 1 {
        law_matches_detected(init, langs, k);
        let kept = detected(init, langs);
        let j = choose|j: int| 0 <= j < kept.len() && kept[j] == init[k];
        assert(all[j] == bones[k]);
    } else {
        assert(all[all.len() - 1] == bones[k]);
    }
}

/// Every plan is that of a marked bone that has a parent.
pub proof fn law_plans_come_from_marked_bones(
    bones: Seq<BoneView>,
    marked: Seq<bool>,
    lowered: Seq<Seq<char>>,
    chains: Seq<ChainView>,
    hair: Option<Cc5SoftPhysics>,
    breast_mass: Num,
    i: int,
)
    requires
        0 <= i < plans_where(bones, marked, lowered, chains, hair, breast_mass).len(),
    ensures
        exists|k: int|
            0 <= k < bones.len() && marked[k] && (#[trigger] bones[k]).parent is Some
                && plans_where(bones, marked, lowered, chains, hair, breast_mass)[i] == plan_for(
                bones[k],
                bones[k].parent->0,
                lowered[k],
                chains,
                hair,
                breast_mass,
            ),
    decreases bones.len(),
{
    let all = plans_where(bones, marked, lowered, chains, hair, breast_mass);
    let init = bones.drop_last();
    let kept = plans_where(init, marked, lowered, chains, hair, breast_mass);
    if i < kept.len() {
        law_plans_come_from_marked_bones(init, marked, lowered, chains, hair, breast_mass, i);
        let k = choose|k: int|
            0 <= k < init.len() && marked[k] && (#[trigger] init[k]).parent is Some && kept[i]
                == plan_for(init[k], init[k].parent->0, lowered[k], chains, hair, breast_mass);
        assert(all[i] == kept[i]);
        assert(bones[k] == init[k]);
    } else {
        assert(bones[bones.len() - 1].parent is Some);
    }
}

/// Every marked bone that has a parent is planned.
pub proof fn law_marked_bones_are_planned(
    bones: Seq<BoneView>,
    marked: Seq<bool>,
    lowered: Seq<Seq<char>>,
    chains: Seq<ChainView>,
    hair: Option<Cc5SoftPhysics>,
    breast_mass: Num,
    k: int,
)
    requires
        0 <= k < bones.len(),
        marked[k],
        bones[k].parent is Some,
    ensures
        plans_where(bones, marked, lowered, chains, hair, breast_mass).contains(
            plan_for(bones[k], bones[k].parent->0, lowered[k], chains, hair, breast_mass),
        ),
    decreases bones.len(),
{
    let all = plans_where(bones, marked, lowered, chains, hair, breast_mass);
    let plan = plan_for(bones[k], bones[k].parent->0, lowered[k], chains, hair, breast_mass);
    if k < bones.len() - 1 {
        let init = bones.drop_last();
        let kept = plans_where(init, marked, lowered, chains, hair, breast_mass);
        law_marked_bones_are_planned(init, marked, lowered, chains, hair, breast_mass, k);
        let j = choose|j: int| 0 <= j < kept.len() && kept[j] == plan;
        assert(all[j] == plan);
    } else {
        assert(all[all.len() - 1] == plan);
    }
}

/// An override of a chain wins over every other source of values.
pub proof fn law_chain_override_wins(
    chain: ChainView,
    hair_like: bool,
    hair: Option<Cc5SoftPhysics>,
)
    ensures
        tuning_for(Some(chain), hair_like, hair).mass == chain.mass_per_link,
        tuning_for(Some(chain), hair_like, hair).stiffness == Stiffness::Given(chain.stiffness),
        tuning_for(Some(chain), hair_like, hair).damping == chain.damping,
        tuning_for(Some(chain), hair_like, hair).radius == chain.collider_radius,
{
}

/// Hand-written tuning wins over what the avatar's own data says.
pub proof fn law_breast_tuning_wins<R>(
    tuning: Cc5BreastTuning,
    soft: Option<Cc5SoftPhysics>,
    radius: Option<R>,
)
    ensures
        tuning.mass matches Some(m) ==> breast_for(tuning, soft, radius).mass == m,
        tuning.linear_stiffness matches Some(k) ==> breast_for(tuning, soft, radius).stiffness
            == Stiffness::Given(k),
        tuning.linear_damping matches Some(c) ==> breast_for(tuning, soft, radius).damping == c,
        tuning.translation_limit matches Some(l) ==> breast_for(tuning, soft, radius).limit
            == StrayLimit::<R>::Given(l),
{
}

} // verus!
