//! Which collider a body joint gets: the sidecar's, else the shapes that come
//! with the avatar, else one that is fitted to the bone.
use crate::cc5_json;
use crate::cc5_json::{Cc5Physics, Cc5Shape};
use crate::cc5_query;
use crate::json::Num;
use crate::sidecar;
use crate::sidecar::BodyColliderOverride;
use crate::smpl;
use crate::text;
use vstd::prelude::*;
use vstd::string::*;

verus! {

/// The collider that a joint gets.
#[derive(Clone, Debug)]
pub enum ColliderPlan {
    /// A shape out of the sidecar.
    Override(BodyColliderOverride),
    /// All active shapes of the avatar's own physics, with one friction.
    Compound { shapes: Vec<Cc5Shape>, friction: Num },
    /// A capsule fitted to the bone.
    AutoFit,
}

/// A plan as data.
#[verifier::ext_equal]
pub enum PlanView {
    Override(BodyColliderOverride),
    Compound { shapes: Seq<cc5_json::ShapeView>, friction: Num },
    AutoFit,
}

impl View for ColliderPlan {
    type V = PlanView;

    open spec fn view(&self) -> PlanView {
        match *self {
            ColliderPlan::Override(o) => PlanView::Override(o),
            ColliderPlan::Compound { shapes, friction } => PlanView::Compound {
                shapes: cc5_json::shapes_view(shapes@),
                friction,
            },
            ColliderPlan::AutoFit => PlanView::AutoFit,
        }
    }
}

/// Friction of a collider that is not the avatar's own.
pub open spec fn plain_friction() -> Num {
    Num::Thousandths(400)
}

impl PlanView {
    /// Friction of the collider.
    pub open spec fn friction(self) -> Num {
        match self {
            PlanView::Compound { shapes, friction } => friction,
            _ => plain_friction(),
        }
    }
}

impl ColliderPlan {
    /// Friction of the collider.
    pub fn friction(&self) -> (r: Num)
        ensures
            r == self@.friction(),
    {
        match self {
            ColliderPlan::Compound { shapes: _, friction } => *friction,
            _ => Num::Thousandths(400),
        }
    }
}

/// Whether a shape is in use.
pub open spec fn is_active(s: cc5_json::ShapeView) -> bool {
    match s {
        cc5_json::ShapeView::Capsule { bone_active, .. } => bone_active,
        cc5_json::ShapeView::Box { bone_active, .. } => bone_active,
    }
}

/// Friction of a shape.
pub open spec fn friction_of(s: cc5_json::ShapeView) -> Num {
    match s {
        cc5_json::ShapeView::Capsule { friction, .. } => friction,
        cc5_json::ShapeView::Box { friction, .. } => friction,
    }
}

/// The shapes in use, in order.
pub open spec fn active(shapes: Seq<cc5_json::ShapeView>) -> Seq<cc5_json::ShapeView> {
    shapes.filter(|s: cc5_json::ShapeView| is_active(s))
}

/// The sidecar's word on a joint: nothing, or its entry.
pub open spec fn entry_for(
    overrides: Seq<(Seq<char>, Option<BodyColliderOverride>)>,
    joint: Seq<char>,
) -> Option<Option<BodyColliderOverride>>
    decreases overrides.len(),
{
    if overrides.len() == 0 {
        None
    } else if overrides[0].0 == joint {
        Some(overrides[0].1)
    } else {
        entry_for(overrides.subrange(1, overrides.len() as int), joint)
    }
}

/// The collider of a joint; none where the sidecar disables it.
pub open spec fn plan_for(
    entry: Option<Option<BodyColliderOverride>>,
    shapes: Option<Seq<cc5_json::ShapeView>>,
) -> Option<PlanView> {
    match entry {
        Some(None) => None,
        Some(Some(o)) => Some(PlanView::Override(o)),
        None => match shapes {
            Some(all) => if active(all).len() > 0 {
                Some(
                    PlanView::Compound {
                        shapes: active(all),
                        friction: friction_of(active(all)[0]),
                    },
                )
            } else {
                Some(PlanView::AutoFit)
            },
            None => Some(PlanView::AutoFit),
        },
    }
}

/// The sidecar's word on a joint.
fn find_entry(
    overrides: &Vec<(String, Option<BodyColliderOverride>)>,
    joint: &str,
) -> (r: Option<Option<BodyColliderOverride>>)
    ensures
        r == entry_for(sidecar::colliders_view(overrides@), joint@),
{
    let ghost all = sidecar::colliders_view(overrides@);
    let mut i: usize = 0;
    assert(all.subrange(0, all.len() as int) =~= all);
    while i < overrides.len()
        invariant
            i <= overrides.len(),
            all == sidecar::colliders_view(overrides@),
            entry_for(all, joint@) == entry_for(
                all.subrange(i as int, all.len() as int),
                joint@,
            ),
        decreases overrides.len() - i,
    {
        let ghost rest = all.subrange(i as int, all.len() as int);
        assert(rest[0] == (overrides@[i as int].0@, overrides@[i as int].1));
        assert(rest.subrange(1, rest.len() as int) =~= all.subrange(i + 1, all.len() as int));
        if text::same(overrides[i].0.as_str(), joint) {
            return Some(overrides[i].1);
        }
        i = i + 1;
    }
    None
}

/// The shapes in use.
fn active_shapes(shapes: &Vec<Cc5Shape>) -> (r: Vec<Cc5Shape>)
    ensures
        cc5_json::shapes_view(r@) == active(cc5_json::shapes_view(shapes@)),
{
    let ghost all = cc5_json::shapes_view(shapes@);
    let ghost used = |s: cc5_json::ShapeView| is_active(s);
    let mut out: Vec<Cc5Shape> = Vec::new();
    let mut i: usize = 0;
    proof {
        reveal(Seq::filter);
        assert(cc5_json::shapes_view(out@) =~= all.take(0).filter(used));
    }
    while i < shapes.len()
        invariant
            i <= shapes.len(),
            all == cc5_json::shapes_view(shapes@),
            used == (|s: cc5_json::ShapeView| is_active(s)),
            cc5_json::shapes_view(out@) == all.take(i as int).filter(used),
        decreases shapes.len() - i,
    {
        let ghost before = out@;
        let shape: Cc5Shape = shapes[i];
        proof {
            reveal(Seq::filter);
            assert(all.take(i + 1).drop_last() =~= all.take(i as int));
            assert(all.take(i + 1).last() == shape@);
        }
        let in_use: bool = match shape {
            Cc5Shape::Capsule { bone_active, .. } => bone_active,
            Cc5Shape::Box { bone_active, .. } => bone_active,
        };
        if in_use {
            out.push(shape);
            assert(cc5_json::shapes_view(out@) =~= cc5_json::shapes_view(before).push(shape@));
        }
        i = i + 1;
    }
    assert(all.take(all.len() as int) =~= all);
    out
}

/// The collider of a joint; none where the sidecar disables it.
pub fn plan_collider(
    overrides: &Vec<(String, Option<BodyColliderOverride>)>,
    joint: &str,
    shapes: Option<&Vec<Cc5Shape>>,
) -> (r: Option<ColliderPlan>)
    ensures
        r is Some == plan_for(
            entry_for(sidecar::colliders_view(overrides@), joint@),
            match shapes {
                Some(s) => Some(cc5_json::shapes_view(s@)),
                None => None,
            },
        ) is Some,
        r matches Some(plan) ==> Some(plan@) == plan_for(
            entry_for(sidecar::colliders_view(overrides@), joint@),
            match shapes {
                Some(s) => Some(cc5_json::shapes_view(s@)),
                None => None,
            },
        ),
{
    match find_entry(overrides, joint) {
        Some(None) => None,
        Some(Some(o)) => Some(ColliderPlan::Override(o)),
        None => match shapes {
            Some(all) => {
                let shapes: Vec<Cc5Shape> = active_shapes(all);
                if shapes.len() == 0 {
                    return Some(ColliderPlan::AutoFit);
                }
                assert(cc5_json::shapes_view(shapes@)[0] == shapes@[0]@);
                let friction: Num = match shapes[0] {
                    Cc5Shape::Capsule { friction, .. } => friction,
                    Cc5Shape::Box { friction, .. } => friction,
                };
                Some(ColliderPlan::Compound { shapes, friction })
            },
            None => Some(ColliderPlan::AutoFit),
        },
    }
}

/// The shapes that the avatar's physics has for a joint.
pub open spec fn shapes_for(
    physics: Option<cc5_json::PhysicsView>,
    joint: int,
) -> Option<Seq<cc5_json::ShapeView>> {
    match physics {
        Some(p) => cc5_query::shapes_named(p.by_bone, smpl::bone_of(joint)),
        None => None,
    }
}

/// The colliders of the first `n` joints, each with its joint and bone; a joint
/// without a bone gets none.
pub open spec fn body_plans(
    bones: Seq<Option<u64>>,
    overrides: Seq<(Seq<char>, Option<BodyColliderOverride>)>,
    physics: Option<cc5_json::PhysicsView>,
    n: nat,
) -> Seq<(usize, u64, PlanView)>
    decreases n,
{
    if n == 0 {
        Seq::empty()
    } else {
        let i = n - 1;
        let init = body_plans(bones, overrides, physics, i as nat);
        match bones[i] {
            Some(bone) => match plan_for(
                entry_for(overrides, smpl::name_of(i)),
                shapes_for(physics, i),
            ) {
                Some(plan) => init.push((i as usize, bone, plan)),
                None => init,
            },
            None => init,
        }
    }
}

/// Planned colliders as data.
pub open spec fn bodies_view(v: Seq<(usize, u64, ColliderPlan)>) -> Seq<(usize, u64, PlanView)> {
    v.map_values(|e: (usize, u64, ColliderPlan)| (e.0, e.1, e.2@))
}

/// The colliders of the body, each with its joint and bone.
pub fn plan_bodies(
    bones: &[Option<u64>; 22],
    overrides: &Vec<(String, Option<BodyColliderOverride>)>,
    physics: Option<&Cc5Physics>,
) -> (r: Vec<(usize, u64, ColliderPlan)>)
    ensures
        bodies_view(r@) == body_plans(
            bones@,
            sidecar::colliders_view(overrides@),
            match physics {
                Some(p) => Some(p@),
                None => None,
            },
            22,
        ),
{
    let ghost words = sidecar::colliders_view(overrides@);
    let ghost own = match physics {
        Some(p) => Some(p@),
        None => None,
    };
    let mut out: Vec<(usize, u64, ColliderPlan)> = Vec::new();
    let mut i: usize = 0;
    assert(bodies_view(out@) =~= Seq::empty());
    while i < 22
        invariant
            i <= 22,
            words == sidecar::colliders_view(overrides@),
            own == (match physics {
                Some(p) => Some(p@),
                None => None,
            }),
            bodies_view(out@) == body_plans(bones@, words, own, i as nat),
        decreases 22 - i,
    {
        let ghost before = out@;
        match bones[i] {
            Some(bone) => {
                let shapes: Option<&Vec<Cc5Shape>> = match physics {
                    Some(p) => p.shapes_on(smpl::cc5_name(i)),
                    None => None,
                };
                match plan_collider(overrides, smpl::smpl_name(i), shapes) {
                    Some(plan) => {
                        out.push((i, bone, plan));
                        assert(bodies_view(out@) =~= bodies_view(before).push((i, bone, plan@)));
                    },
                    None => {},
                }
            },
            None => {},
        }
        i = i + 1;
    }
    out
}

/// The sidecar has the last word, whatever shapes the avatar comes with.
pub proof fn law_sidecar_decides(
    entry: Option<BodyColliderOverride>,
    shapes: Option<Seq<cc5_json::ShapeView>>,
)
    ensures
        plan_for(Some(entry), shapes) == (match entry {
            Some(o) => Some(PlanView::Override(o)),
            None => None,
        }),
{
}

/// A compound collider holds active shapes only, and at least one.
pub proof fn law_compounds_are_active(
    entry: Option<Option<BodyColliderOverride>>,
    all: Option<Seq<cc5_json::ShapeView>>,
    k: int,
)
    ensures
        plan_for(entry, all) matches Some(PlanView::Compound { shapes, friction }) ==> {
            &&& shapes.len() > 0
            &&& friction == friction_of(shapes[0])
            &&& 0 <= k < shapes.len() ==> is_active(shapes[k])
        },
{
    broadcast use vstd::seq_lib::group_filter_ensures;

}

} // verus!
