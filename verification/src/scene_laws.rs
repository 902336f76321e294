//! What holds of colliders, hierarchy, floor and overlays.
use crate::cc5_json;
use crate::cc5_json::ShapeView;
use crate::cc5_query;
use crate::colliders;
use crate::colliders::{ColliderPlan, PlanView};
use crate::hierarchy;
use crate::json::Num;
use crate::overlay;
use crate::overlay::{Category, Rgb};
use crate::retarget_laws;
use crate::secondary;
use crate::sidecar::BodyColliderOverride;
use crate::smpl;
use crate::world;
use vstd::prelude::*;

verus! {

/// The sidecar's word on a joint is its first entry of that name.
pub proof fn law_first_entry_speaks(
    overrides: Seq<(Seq<char>, Option<BodyColliderOverride>)>,
    joint: Seq<char>,
    k: int,
)
    requires
        0 <= k <= overrides.len(),
        forall|j: int| 0 <= j < k ==> (#[trigger] overrides[j]).0 != joint,
        k < overrides.len() ==> overrides[k].0 == joint,
    ensures
        k < overrides.len() ==> colliders::entry_for(overrides, joint) == Some(overrides[k].1),
        k == overrides.len() ==> colliders::entry_for(overrides, joint) is None,
    decreases overrides.len(),
{
    if k > 0 {
        assert(overrides[0].0 != joint);
        let rest = overrides.subrange(1, overrides.len() as int);
        assert forall|j: int| 0 <= j < k - 1 implies (#[trigger] rest[j]).0 != joint by {
            assert(rest[j] == overrides[j + 1]);
        }
        if k < overrides.len() {
            assert(rest[k - 1] == overrides[k]);
        }
        law_first_entry_speaks(rest, joint, k - 1);
    }
}

/// A shape that is in use.
pub open spec fn in_use(s: ShapeView) -> bool {
    match s {
        ShapeView::Capsule { bone_active, .. } => bone_active,
        ShapeView::Box { bone_active, .. } => bone_active,
    }
}

/// The shapes in use are picked one by one, in order, and every other is left out.
pub proof fn law_shapes_in_use(shapes: Seq<ShapeView>, s: ShapeView)
    ensures
        colliders::active(Seq::empty()).len() == 0,
        in_use(s) ==> colliders::active(shapes.push(s)) == colliders::active(shapes).push(s),
        !in_use(s) ==> colliders::active(shapes.push(s)) == colliders::active(shapes),
{
    reveal(Seq::filter);
    assert(shapes.push(s).drop_last() =~= shapes);
}

/// A joint's collider is what the sidecar says, nothing where the sidecar switches it
/// off; without a word from the sidecar it is made of the avatar's shapes in use, with
/// the friction of the first of them, and where there are none it is fitted to the
/// bone.
pub proof fn law_which_collider(
    o: BodyColliderOverride,
    shapes: Option<Seq<ShapeView>>,
    all: Seq<ShapeView>,
)
    ensures
        colliders::plan_for(Some(None), shapes) is None,
        colliders::plan_for(Some(Some(o)), shapes) == Some(PlanView::Override(o)),
        colliders::plan_for(None, None) == Some(PlanView::AutoFit),
        colliders::active(all).len() == 0 ==> colliders::plan_for(None, Some(all)) == Some(
            PlanView::AutoFit,
        ),
        colliders::active(all).len() > 0 ==> (colliders::plan_for(None, Some(all)) matches Some(
            PlanView::Compound { shapes: used, friction },
        ) && used == colliders::active(all) && match used[0] {
            ShapeView::Capsule { friction: f, .. } => friction == f,
            ShapeView::Box { friction: f, .. } => friction == f,
        }),
{
}

/// The avatar's own colliders have their own friction, all others 0.4.
pub proof fn law_collider_friction(
    o: BodyColliderOverride,
    shapes: Seq<ShapeView>,
    friction: Num,
    plan: ColliderPlan,
)
    ensures
        PlanView::Override(o).friction() == Num::Thousandths(400),
        PlanView::AutoFit.friction() == Num::Thousandths(400),
        (PlanView::Compound { shapes, friction }).friction() == friction,
        match plan {
            ColliderPlan::Override(x) => plan@ == PlanView::Override(x),
            ColliderPlan::AutoFit => plan@ is AutoFit,
            ColliderPlan::Compound { shapes: s, friction: f } => (plan@ matches PlanView::Compound {
                shapes: t,
                friction: g,
            } && f == g && t == cc5_json::shapes_view(s@)),
        },
{
}

/// The body gets its colliders joint by joint: a joint with a bone is planned by the
/// sidecar's word on the joint's name and the avatar's shapes under the bone's name.
pub proof fn law_colliders_joint_by_joint(
    bones: Seq<Option<u64>>,
    overrides: Seq<(Seq<char>, Option<BodyColliderOverride>)>,
    physics: cc5_json::PhysicsView,
    i: nat,
)
    requires
        i < 22,
    ensures
        colliders::body_plans(bones, overrides, Some(physics), 0).len() == 0,
        ({
            let before = colliders::body_plans(bones, overrides, Some(physics), i);
            let after = colliders::body_plans(bones, overrides, Some(physics), i + 1);
            let plan = colliders::plan_for(
                colliders::entry_for(overrides, smpl::name_of(i as int)),
                cc5_query::shapes_named(physics.by_bone, smpl::bone_of(i as int)),
            );
            &&& bones[i as int] is None || plan is None ==> after == before
            &&& bones[i as int] matches Some(b) ==> (plan matches Some(p) ==> after == before.push(
                (i as usize, b, p),
            ))
        }),
        ({
            let before = colliders::body_plans(bones, overrides, None, i);
            let after = colliders::body_plans(bones, overrides, None, i + 1);
            let plan = colliders::plan_for(
                colliders::entry_for(overrides, smpl::name_of(i as int)),
                None,
            );
            &&& bones[i as int] is None || plan is None ==> after == before
            &&& bones[i as int] matches Some(b) ==> (plan matches Some(p) ==> after == before.push(
                (i as usize, b, p),
            ))
        }),
{
}

/// `line` leads upwards from its first entity, parent by parent.
pub open spec fn line_up(p: spec_fn(u64) -> Option<u64>, line: Seq<u64>) -> bool {
    line.len() >= 1 && forall|i: int|
        0 <= i < line.len() - 1 ==> p(#[trigger] line[i]) == Some(line[i + 1])
}

/// An entity lies below a root when the root is one of the first `n` entities above
/// it.
pub proof fn law_roots_are_found_above(
    p: spec_fn(u64) -> Option<u64>,
    roots: Seq<u64>,
    line: Seq<u64>,
    n: nat,
)
    requires
        line_up(p, line),
    ensures
        (exists|k: int| 1 <= k < line.len() && k <= n && roots.contains(#[trigger] line[k]))
            ==> hierarchy::reaches(p, roots, line[0], n),
        line.len() > n && (forall|k: int|
            1 <= k <= n ==> !roots.contains(#[trigger] line[k])) ==> !hierarchy::reaches(
            p,
            roots,
            line[0],
            n,
        ),
        p(line[line.len() - 1]) is None && (forall|k: int|
            1 <= k < line.len() ==> !roots.contains(#[trigger] line[k])) ==> !hierarchy::reaches(
            p,
            roots,
            line[0],
            n,
        ),
    decreases n,
{
    if n > 0 && line.len() > 1 {
        let rest = line.subrange(1, line.len() as int);
        assert(p(line[0]) == Some(line[1]));
        assert(rest[0] == line[1]);
        assert forall|i: int| 0 <= i < rest.len() - 1 implies p(#[trigger] rest[i]) == Some(
            rest[i + 1],
        ) by {
            assert(rest[i] == line[i + 1]);
            assert(rest[i + 1] == line[i + 1 + 1]);
        }
        law_roots_are_found_above(p, roots, rest, (n - 1) as nat);
        assert(rest[rest.len() - 1] == line[line.len() - 1]);
        if exists|k: int| 1 <= k < line.len() && k <= n && roots.contains(#[trigger] line[k]) {
            let k = choose|k: int|
                1 <= k < line.len() && k <= n && roots.contains(#[trigger] line[k]);
            if k > 1 {
                assert(rest[k - 1] == line[k]);
            }
        }
        if line.len() > n && (forall|k: int| 1 <= k <= n ==> !roots.contains(#[trigger] line[k])) {
            assert(!roots.contains(line[1]));
            assert forall|k: int| 1 <= k <= n - 1 implies !roots.contains(#[trigger] rest[k]) by {
                assert(rest[k] == line[k + 1]);
            }
        }
        if p(line[line.len() - 1]) is None && (forall|k: int|
            1 <= k < line.len() ==> !roots.contains(#[trigger] line[k])) {
            assert(!roots.contains(line[1]));
            assert forall|k: int| 1 <= k < rest.len() implies !roots.contains(
                #[trigger] rest[k],
            ) by {
                assert(rest[k] == line[k + 1]);
            }
        }
    }
}

/// Everything belongs to the avatar before one is spawned; from then on its roots do
/// and what has one of them among the 64 entities above it.
pub proof fn law_what_belongs_to_the_avatar(
    p: spec_fn(u64) -> Option<u64>,
    avatars: Seq<u64>,
    e: u64,
)
    ensures
        hierarchy::of_avatar(p, Seq::empty(), e),
        avatars.contains(e) ==> hierarchy::below(p, avatars, e) && hierarchy::of_avatar(
            p,
            avatars,
            e,
        ),
        hierarchy::reaches(p, avatars, e, 64) ==> hierarchy::below(p, avatars, e)
            && hierarchy::of_avatar(p, avatars, e),
        avatars.len() > 0 && !avatars.contains(e) && !hierarchy::reaches(p, avatars, e, 64)
            ==> !hierarchy::below(p, avatars, e) && !hierarchy::of_avatar(p, avatars, e),
        hierarchy::MAX_NAME_DEPTH == 32,
{
}

/// The avatar's part of the named entities is picked one by one, in order.
pub proof fn law_avatar_part_in_order(
    list: Seq<(u64, String)>,
    x: (u64, String),
    p: spec_fn(u64) -> Option<u64>,
    avatars: Seq<u64>,
)
    ensures
        hierarchy::avatar_part(Seq::empty(), p, avatars).len() == 0,
        hierarchy::of_avatar(p, avatars, x.0) ==> hierarchy::avatar_part(
            secondary::named(list.push(x)),
            p,
            avatars,
        ) == hierarchy::avatar_part(secondary::named(list), p, avatars).push((x.0, x.1@)),
        !hierarchy::of_avatar(p, avatars, x.0) ==> hierarchy::avatar_part(
            secondary::named(list.push(x)),
            p,
            avatars,
        ) == hierarchy::avatar_part(secondary::named(list), p, avatars),
{
    let all = secondary::named(list.push(x));
    assert(all.drop_last() =~= secondary::named(list));
    assert(all.last() == (x.0, x.1@));
}

/// The name above an entity is that of the nearest entity above it that has one.
pub proof fn law_nearest_name_above(
    p: spec_fn(u64) -> Option<u64>,
    name: spec_fn(u64) -> Option<Seq<char>>,
    line: Seq<u64>,
    k: int,
    n: nat,
)
    requires
        line_up(p, line),
        1 <= k < line.len(),
        forall|j: int| 1 <= j < k ==> name(#[trigger] line[j]) is None,
    ensures
        k <= n && name(line[k]) is Some ==> hierarchy::named_above(p, name, line[0], n) == name(
            line[k],
        ),
        k > n ==> hierarchy::named_above(p, name, line[0], n) is None,
        k <= n && k == line.len() - 1 && name(line[k]) is None && p(line[k]) is None
            ==> hierarchy::named_above(p, name, line[0], n) is None,
    decreases n,
{
    if n > 0 {
        assert(p(line[0]) == Some(line[1]));
        if k > 1 {
            assert(name(line[1]) is None);
            let rest = line.subrange(1, line.len() as int);
            assert(rest[0] == line[1]);
            assert(rest[k - 1] == line[k]);
            assert forall|i: int| 0 <= i < rest.len() - 1 implies p(#[trigger] rest[i]) == Some(
                rest[i + 1],
            ) by {
                assert(rest[i] == line[i + 1]);
                assert(rest[i + 1] == line[i + 1 + 1]);
            }
            assert forall|j: int| 1 <= j < k - 1 implies name(#[trigger] rest[j]) is None by {
                assert(rest[j] == line[j + 1]);
            }
            law_nearest_name_above(p, name, rest, k - 1, (n - 1) as nat);
        } else {
            reveal_with_fuel(hierarchy::named_above, 3);
        }
    }
}

/// The rotation of a chain of ancestors is that of the outer ones followed by the
/// innermost; one without a rotation is passed over.
pub proof fn law_chain_from_the_inside<Q>(
    q: Q,
    outer: Seq<Option<Q>>,
    m: spec_fn(Q, Q) -> Q,
    one: Q,
)
    ensures
        hierarchy::chain_product(Seq::empty(), m, one) == one,
        hierarchy::chain_product(seq![Some(q)] + outer, m, one) == m(
            hierarchy::chain_product(outer, m, one),
            q,
        ),
        hierarchy::chain_product(seq![None::<Q>] + outer, m, one) == hierarchy::chain_product(
            outer,
            m,
            one,
        ),
{
    let turned = seq![Some(q)] + outer;
    let plain = seq![None::<Q>] + outer;
    assert(turned.subrange(1, turned.len() as int) =~= outer);
    assert(plain.subrange(1, plain.len() as int) =~= outer);
}

/// What the supplied lookups stand for.
pub proof fn law_supplied_hierarchy<P: Fn(u64) -> Option<u64>, N: Fn(u64) -> Option<String>>(
    parent: P,
    p: spec_fn(u64) -> Option<u64>,
    names: N,
    name: spec_fn(u64) -> Option<Seq<char>>,
)
    ensures
        hierarchy::answers(parent, p) <==> forall|e: u64, r: Option<u64>| #[trigger]
            call_ensures(parent, (e,), r) ==> r == p(e),
        hierarchy::calls(names, name) <==> forall|e: u64, r: Option<String>| #[trigger]
            call_ensures(names, (e,), r) ==> match r {
                Some(s) => name(e) == Some(s@),
                None => name(e) is None,
            },
{
}

/// The floor is looked for at the ankles and feet, joint by joint: a joint whose
/// height is not known is passed over, and of two known heights the lower counts.
pub proof fn law_floor_joint_by_joint<H>(
    joints: Seq<usize>,
    j: usize,
    h: spec_fn(usize) -> Option<H>,
    l: spec_fn(H, H) -> H,
)
    ensures
        world::foot_joints() == seq![7usize, 8, 10, 11],
        world::lowest(Seq::empty(), h, l) is None,
        h(j) is None ==> world::lowest(joints.push(j), h, l) == world::lowest(joints, h, l),
        h(j) matches Some(y) ==> match world::lowest(joints, h, l) {
            Some(x) => world::lowest(joints.push(j), h, l) == Some(l(x, y)),
            None => world::lowest(joints.push(j), h, l) == Some(y),
        },
{
    assert(joints.push(j).drop_last() =~= joints);
}

/// What the supplied measures stand for.
pub proof fn law_supplied_heights<
    H,
    R: Fn(usize) -> Option<H>,
    L: Fn(H, H) -> H,
    C: Fn(H, H) -> bool,
>(
    resolve: R,
    h: spec_fn(usize) -> Option<H>,
    lower: L,
    l: spec_fn(H, H) -> H,
    close: C,
    c: spec_fn(H, H) -> bool,
)
    ensures
        world::finds(resolve, h) <==> forall|i: usize, r: Option<H>| #[trigger]
            call_ensures(resolve, (i,), r) ==> r == h(i),
        world::compares(lower, l) <==> forall|a: H, b: H, r: H| #[trigger]
            call_ensures(lower, (a, b), r) ==> r == l(a, b),
        world::equates(close, c) <==> forall|a: H, b: H, r: bool| #[trigger]
            call_ensures(close, (a, b), r) ==> r == c(a, b),
{
}

/// A body collider is drawn in aqua, else a jiggling one in magenta, else a prop in
/// yellow, else a static one in gray, and any other in red.
pub proof fn law_overlay_colors(b: bool, p: bool, j: bool, s: bool)
    ensures
        overlay::category_of(true, p, j, s) == Category::Body,
        overlay::category_of(false, p, true, s) == Category::Jiggle,
        overlay::category_of(false, true, false, s) == Category::Prop,
        overlay::category_of(false, false, false, true) == Category::Static,
        overlay::category_of(false, false, false, false) == Category::Other,
        Category::Body.shade() == (Rgb { red: 0, green: 255, blue: 255 }),
        Category::Jiggle.shade() == (Rgb { red: 255, green: 0, blue: 255 }),
        Category::Prop.shade() == (Rgb { red: 255, green: 255, blue: 0 }),
        Category::Static.shade() == (Rgb { red: 128, green: 128, blue: 128 }),
        Category::Other.shade() == (Rgb { red: 255, green: 0, blue: 0 }),
{
}

/// A setting counts where it is given and readable, else the default does.
pub proof fn law_settings_and_defaults<F, P: Fn(&str) -> Option<F>>(
    s: Seq<char>,
    default: F,
    p: spec_fn(Seq<char>) -> Option<F>,
    given: &str,
    parse: P,
)
    ensures
        p(s) matches Some(v) ==> overlay::setting_or(Some(s), default, p) == v,
        p(s) is None ==> overlay::setting_or(Some(s), default, p) == default,
        overlay::setting_or(None, default, p) == default,
        overlay::text_of(Some(given)) == Some(given@),
        overlay::text_of(None) is None,
        overlay::reads(parse, p) <==> forall|t: &str, r: Option<F>| #[trigger]
            call_ensures(parse, (t,), r) ==> r == p(t@),
{
}

/// The skeleton is drawn joint by joint: a joint adds the line from the joint above it
/// where both are known; the pelvis adds none.
pub proof fn law_skeleton_lines<P>(at: Seq<Option<P>>, i: nat)
    requires
        i < 22,
    ensures
        overlay::lines_of(at, 0).len() == 0,
        i == 0 ==> overlay::lines_of(at, i + 1) == overlay::lines_of(at, i),
        i > 0 ==> {
            let up = at[retarget_laws::joint_above(i as int)];
            let own = at[i as int];
            &&& own is None || up is None ==> overlay::lines_of(at, i + 1) == overlay::lines_of(
                at,
                i,
            )
            &&& own is Some && up is Some ==> overlay::lines_of(at, i + 1) == overlay::lines_of(
                at,
                i,
            ).push((up->0, own->0))
        },
{
    retarget_laws::law_joint_tree(i as int);
}

} // verus!
