//! Questions about an avatar's physics data.
use crate::cc5_json;
use crate::cc5_json::{Cc5Physics, Cc5Shape, Cc5SoftPhysics, PhysicsView, ShapeView};
use crate::json::Num;
use crate::lowercase;
use crate::text;
use vstd::prelude::*;

verus! {

/// The shapes of a bone; the first entry of that name counts.
pub open spec fn shapes_named(
    bones: Seq<(Seq<char>, Seq<ShapeView>)>,
    name: Seq<char>,
) -> Option<Seq<ShapeView>>
    decreases bones.len(),
{
    if bones.len() == 0 {
        None
    } else if bones[0].0 == name {
        Some(bones[0].1)
    } else {
        shapes_named(bones.subrange(1, bones.len() as int), name)
    }
}

/// The radii of the capsules among some shapes, in order.
pub open spec fn capsule_radii(shapes: Seq<ShapeView>) -> Seq<Num>
    decreases shapes.len(),
{
    if shapes.len() == 0 {
        Seq::empty()
    } else {
        let init = capsule_radii(shapes.drop_last());
        match shapes.last() {
            ShapeView::Capsule { radius, .. } => init.push(radius),
            ShapeView::Box { .. } => init,
        }
    }
}

/// `answer` is what `measure` makes of the radii `radii`.
pub open spec fn measured<R, M: Fn(&Vec<Num>) -> Option<R>>(
    measure: M,
    radii: Seq<Num>,
    answer: Option<R>,
) -> bool {
    exists|v: &Vec<Num>| #[trigger] call_ensures(measure, (v,), answer) && v@ == radii
}

/// `answer` is the first that `measure` gives for the capsules of the bones in
/// `names`, taken in order; bones without an entry are passed over.
pub open spec fn first_measured<R, M: Fn(&Vec<Num>) -> Option<R>>(
    bones: Seq<(Seq<char>, Seq<ShapeView>)>,
    names: Seq<Seq<char>>,
    measure: M,
    answer: Option<R>,
) -> bool
    decreases names.len(),
{
    if names.len() == 0 {
        answer is None
    } else {
        let rest = names.subrange(1, names.len() as int);
        match shapes_named(bones, names[0]) {
            None => first_measured(bones, rest, measure, answer),
            Some(shapes) => {
                ||| answer is Some && measured(measure, capsule_radii(shapes), answer)
                ||| measured(measure, capsule_radii(shapes), None) && first_measured(
                    bones,
                    rest,
                    measure,
                    answer,
                )
            },
        }
    }
}

/// Bones whose capsules tell the size of the chest, best first.
pub open spec fn chest_bones() -> Seq<Seq<char>> {
    seq!["CC_Base_Spine02"@, "CC_Base_Spine01"@, "CC_Base_Hip"@]
}

/// Bones whose capsules tell the size of the breast, best first.
pub open spec fn breast_bones() -> Seq<Seq<char>> {
    seq!["CC_Base_L_Breast"@, "CC_Base_R_Breast"@]
}

/// A mesh name, in lower case, that suggests a body surface.
pub open spec fn names_body(lower: Seq<char>) -> bool {
    text::contains(lower, "body"@) || text::contains(lower, "skin"@) || text::contains(
        lower,
        "torso"@,
    )
}

/// A mesh name, in lower case, that suggests a garment.
pub open spec fn names_garment(lower: Seq<char>) -> bool {
    text::contains(lower, "sweater"@) || text::contains(lower, "shirt"@) || text::contains(
        lower,
        "pants"@,
    ) || text::contains(lower, "dress"@) || text::contains(lower, "cloth"@)
}

/// The values of the first mesh whose lower-case name satisfies `wanted`.
pub open spec fn first_soft(
    soft: Seq<(Seq<char>, Cc5SoftPhysics)>,
    wanted: spec_fn(Seq<char>) -> bool,
) -> Option<Cc5SoftPhysics>
    decreases soft.len(),
{
    if soft.len() == 0 {
        None
    } else if wanted(lowercase::lowered(soft[0].0)) {
        Some(soft[0].1)
    } else {
        first_soft(soft.subrange(1, soft.len() as int), wanted)
    }
}

/// The soft-body values that stand for the body surface.
pub open spec fn body_soft(soft: Seq<(Seq<char>, Cc5SoftPhysics)>) -> Option<Cc5SoftPhysics> {
    first_soft(soft, |lower: Seq<char>| names_body(lower))
}

/// The soft-body values that stand for the hair: those of a mesh named after
/// hair, else those of the first mesh that is no garment.
pub open spec fn hair_soft(soft: Seq<(Seq<char>, Cc5SoftPhysics)>) -> Option<Cc5SoftPhysics> {
    match first_soft(soft, |lower: Seq<char>| text::contains(lower, "hair"@)) {
        Some(s) => Some(s),
        None => first_soft(soft, |lower: Seq<char>| !names_garment(lower)),
    }
}

/// Whether a lower-case mesh name suggests a body surface.
pub fn is_body_name(lower: &str) -> (r: bool)
    ensures
        r == names_body(lower@),
{
    text::has(lower, "body") || text::has(lower, "skin") || text::has(lower, "torso")
}

/// Whether a lower-case mesh name suggests a garment.
pub fn is_garment_name(lower: &str) -> (r: bool)
    ensures
        r == names_garment(lower@),
{
    text::has(lower, "sweater") || text::has(lower, "shirt") || text::has(lower, "pants")
        || text::has(lower, "dress") || text::has(lower, "cloth")
}

/// The radii of the capsules among some shapes, in order.
fn radii_of(shapes: &Vec<Cc5Shape>) -> (r: Vec<Num>)
    ensures
        r@ == capsule_radii(cc5_json::shapes_view(shapes@)),
{
    let ghost all = cc5_json::shapes_view(shapes@);
    let mut radii: Vec<Num> = Vec::new();
    let mut i: usize = 0;
    assert(all.take(0) =~= Seq::<ShapeView>::empty());
    while i < shapes.len()
        invariant
            i <= shapes.len(),
            all == cc5_json::shapes_view(shapes@),
            radii@ == capsule_radii(all.take(i as int)),
        decreases shapes.len() - i,
    {
        assert(all.take(i + 1).drop_last() =~= all.take(i as int));
        assert(all[i as int] == shapes@[i as int]@);
        match shapes[i] {
            Cc5Shape::Capsule { radius, .. } => radii.push(radius),
            Cc5Shape::Box { .. } => {},
        }
        i = i + 1;
    }
    assert(all.take(all.len() as int) =~= all);
    radii
}

impl Cc5Physics {
    /// The shapes of a bone.
    pub fn shapes_on(&self, bone: &str) -> (r: Option<&Vec<Cc5Shape>>)
        ensures
            r is Some == shapes_named(self@.by_bone, bone@) is Some,
            r matches Some(shapes) ==> Some(cc5_json::shapes_view(shapes@)) == shapes_named(
                self@.by_bone,
                bone@,
            ),
    {
        let ghost all = self@.by_bone;
        let mut i: usize = 0;
        assert(all.subrange(0, all.len() as int) =~= all);
        while i < self.by_bone.len()
            invariant
                i <= self.by_bone.len(),
                all == self@.by_bone,
                shapes_named(all, bone@) == shapes_named(
                    all.subrange(i as int, all.len() as int),
                    bone@,
                ),
            decreases self.by_bone.len() - i,
        {
            let ghost rest = all.subrange(i as int, all.len() as int);
            assert(rest[0] == (
                self.by_bone@[i as int].0@,
                cc5_json::shapes_view(self.by_bone@[i as int].1@),
            ));
            if text::same(self.by_bone[i].0.as_str(), bone) {
                return Some(&self.by_bone[i].1);
            }
            assert(rest.subrange(1, rest.len() as int) =~= all.subrange(i + 1, all.len() as int));
            i = i + 1;
        }
        None
    }

    /// Radius of the chest: the first answer of `measure` for the capsules of
    /// the spine, then of the hip. `measure` gives the largest radius in
    /// metres, if there is a positive finite one.
    pub fn chest_radius_m<R, M: Fn(&Vec<Num>) -> Option<R>>(&self, measure: &M) -> (r: Option<R>)
        requires
            forall|v: &Vec<Num>| call_requires(*measure, (v,)),
        ensures
            first_measured(self@.by_bone, chest_bones(), *measure, r),
    {
        proof {
            let all = chest_bones();
            reveal_with_fuel(first_measured, 4);
            assert(all.subrange(1, 3) =~= seq!["CC_Base_Spine01"@, "CC_Base_Hip"@]);
            assert(all.subrange(1, 3).subrange(1, 2) =~= seq!["CC_Base_Hip"@]);
        }
        if let Some(shapes) = self.shapes_on("CC_Base_Spine02") {
            let radii: Vec<Num> = radii_of(shapes);
            let answer: Option<R> = measure(&radii);
            assert(measured(*measure, radii@, answer));
            if answer.is_some() {
                return answer;
            }
        }
        if let Some(shapes) = self.shapes_on("CC_Base_Spine01") {
            let radii: Vec<Num> = radii_of(shapes);
            let answer: Option<R> = measure(&radii);
            assert(measured(*measure, radii@, answer));
            if answer.is_some() {
                return answer;
            }
        }
        if let Some(shapes) = self.shapes_on("CC_Base_Hip") {
            let radii: Vec<Num> = radii_of(shapes);
            let answer: Option<R> = measure(&radii);
            assert(measured(*measure, radii@, answer));
            if answer.is_some() {
                return answer;
            }
        }
        None
    }

    /// Radius of the breast: the first answer of `measure` for the capsules of
    /// the left, then of the right side.
    pub fn breast_capsule_radius_m<R, M: Fn(&Vec<Num>) -> Option<R>>(&self, measure: &M) -> (r:
        Option<R>)
        requires
            forall|v: &Vec<Num>| call_requires(*measure, (v,)),
        ensures
            first_measured(self@.by_bone, breast_bones(), *measure, r),
    {
        proof {
            let all = breast_bones();
            reveal_with_fuel(first_measured, 3);
            assert(all.subrange(1, 2) =~= seq!["CC_Base_R_Breast"@]);
        }
        if let Some(shapes) = self.shapes_on("CC_Base_L_Breast") {
            let radii: Vec<Num> = radii_of(shapes);
            let answer: Option<R> = measure(&radii);
            assert(measured(*measure, radii@, answer));
            if answer.is_some() {
                return answer;
            }
        }
        if let Some(shapes) = self.shapes_on("CC_Base_R_Breast") {
            let radii: Vec<Num> = radii_of(shapes);
            let answer: Option<R> = measure(&radii);
            assert(measured(*measure, radii@, answer));
            if answer.is_some() {
                return answer;
            }
        }
        None
    }

    /// Soft-body values of the body surface: those of the first mesh named
    /// after body, skin or torso, in any case.
    pub fn body_soft_physics(&self) -> (r: Option<Cc5SoftPhysics>)
        ensures
            r == body_soft(self@.soft),
    {
        let ghost wanted = |lower: Seq<char>| names_body(lower);
        let ghost all = self@.soft;
        let mut i: usize = 0;
        assert(all.subrange(0, all.len() as int) =~= all);
        while i < self.soft_physics_by_mesh.len()
            invariant
                i <= self.soft_physics_by_mesh.len(),
                all == self@.soft,
                wanted == (|lower: Seq<char>| names_body(lower)),
                first_soft(all, wanted) == first_soft(
                    all.subrange(i as int, all.len() as int),
                    wanted,
                ),
            decreases self.soft_physics_by_mesh.len() - i,
        {
            let ghost rest = all.subrange(i as int, all.len() as int);
            assert(rest[0] == (
                self.soft_physics_by_mesh@[i as int].0@,
                self.soft_physics_by_mesh@[i as int].1,
            ));
            let lower: String = lowercase::lower(self.soft_physics_by_mesh[i].0.as_str());
            if is_body_name(lower.as_str()) {
                return Some(self.soft_physics_by_mesh[i].1);
            }
            assert(rest.subrange(1, rest.len() as int) =~= all.subrange(i + 1, all.len() as int));
            i = i + 1;
        }
        None
    }

    /// Soft-body values of the hair: those of the first mesh named after hair,
    /// in any case; else those of the first mesh that is no garment.
    pub fn hair_soft_physics(&self) -> (r: Option<Cc5SoftPhysics>)
        ensures
            r == hair_soft(self@.soft),
    {
        let ghost hair = |lower: Seq<char>| text::contains(lower, "hair"@);
        let ghost other = |lower: Seq<char>| !names_garment(lower);
        let ghost all = self@.soft;
        let mut i: usize = 0;
        assert(all.subrange(0, all.len() as int) =~= all);
        while i < self.soft_physics_by_mesh.len()
            invariant
                i <= self.soft_physics_by_mesh.len(),
                all == self@.soft,
                hair == (|lower: Seq<char>| text::contains(lower, "hair"@)),
                first_soft(all, hair) == first_soft(
                    all.subrange(i as int, all.len() as int),
                    hair,
                ),
            decreases self.soft_physics_by_mesh.len() - i,
        {
            let ghost rest = all.subrange(i as int, all.len() as int);
            assert(rest[0] == (
                self.soft_physics_by_mesh@[i as int].0@,
                self.soft_physics_by_mesh@[i as int].1,
            ));
            let lower: String = lowercase::lower(self.soft_physics_by_mesh[i].0.as_str());
            if text::has(lower.as_str(), "hair") {
                return Some(self.soft_physics_by_mesh[i].1);
            }
            assert(rest.subrange(1, rest.len() as int) =~= all.subrange(i + 1, all.len() as int));
            i = i + 1;
        }
        let mut j: usize = 0;
        while j < self.soft_physics_by_mesh.len()
            invariant
                j <= self.soft_physics_by_mesh.len(),
                all == self@.soft,
                hair == (|lower: Seq<char>| text::contains(lower, "hair"@)),
                first_soft(all, hair) is None,
                other == (|lower: Seq<char>| !names_garment(lower)),
                first_soft(all, other) == first_soft(
                    all.subrange(j as int, all.len() as int),
                    other,
                ),
            decreases self.soft_physics_by_mesh.len() - j,
        {
            let ghost rest = all.subrange(j as int, all.len() as int);
            assert(rest[0] == (
                self.soft_physics_by_mesh@[j as int].0@,
                self.soft_physics_by_mesh@[j as int].1,
            ));
            let lower: String = lowercase::lower(self.soft_physics_by_mesh[j].0.as_str());
            if !is_garment_name(lower.as_str()) {
                return Some(self.soft_physics_by_mesh[j].1);
            }
            assert(rest.subrange(1, rest.len() as int) =~= all.subrange(j + 1, all.len() as int));
            j = j + 1;
        }
        None
    }
}

/// Without collision shapes there is no radius of chest or breast, and without
/// soft-body values there are none for body or hair.
pub proof fn law_no_shapes_no_answers<R, M: Fn(&Vec<Num>) -> Option<R>>(measure: M, answer: Option<R>)
    requires
        first_measured(PhysicsView::empty().by_bone, chest_bones(), measure, answer)
            || first_measured(PhysicsView::empty().by_bone, breast_bones(), measure, answer),
    ensures
        answer is None,
        body_soft(PhysicsView::empty().soft) is None,
        hair_soft(PhysicsView::empty().soft) is None,
{
    reveal_with_fuel(first_measured, 4);
}

} // verus!
