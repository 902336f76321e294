//! What holds of the avatar's data files, told by the documents that they hold.
use crate::cc5_json;
use crate::cc5_json::{Cc5BreastTuning, Cc5Physics, Cc5Shape, Cc5SoftPhysics, ShapeView};
use crate::cc5_query;
use crate::envelope_laws;
use crate::envelope_laws::{lists, member_is, member_missing};
use crate::json::{JsonView, Num};
use crate::lowercase;
use crate::morph_map;
use crate::morph_map::{ArkitMap, MorphRef, RefView};
use crate::renderer;
use crate::sidecar;
use crate::sidecar::{
    BodyColliderOverride, ChainView, JiggleChainRaw, PlayVolumeRaw, SecondaryMotionRaw, SidecarRaw,
};
use crate::text;
use vstd::prelude::*;

verus! {

/// The member `key` is this number.
pub open spec fn number_is(v: JsonView, key: Seq<char>, n: Num) -> bool {
    member_is(v, key, JsonView::Number(n))
}

/// The member `key` is this number, or is missing and the number is the default.
pub open spec fn number_or(v: JsonView, key: Seq<char>, n: Num, default: Num) -> bool {
    number_is(v, key, n) || (member_missing(v, key) && n == default)
}

/// The member `key` is this number, or missing or null for no number.
pub open spec fn number_maybe(v: JsonView, key: Seq<char>, n: Option<Num>) -> bool {
    match n {
        Some(x) => number_is(v, key, x),
        None => member_missing(v, key) || member_is(v, key, JsonView::Null),
    }
}

/// The member `key` is a list of these `n` numbers.
pub open spec fn numbers_are(v: JsonView, key: Seq<char>, nums: Seq<Num>, n: nat) -> bool {
    nums.len() == n && exists|a: JsonView| #[trigger] member_is(v, key, a) && lists(a, nums)
}

/// A list of numbers reads as these numbers.
proof fn lemma_lists(a: JsonView, nums: Seq<Num>)
    requires
        lists(a, nums),
    ensures
        renderer::numbers(a, nums.len()),
        renderer::numbers_of(a) == nums,
{
    assert(renderer::numbers_of(a) =~= nums);
}

/// What a member is when it is read by name.
proof fn lemma_number(v: JsonView, key: Seq<char>, n: Num)
    requires
        v is Object,
    ensures
        number_is(v, key, n) ==> v.get(key) == Some(JsonView::Number(n)),
        member_missing(v, key) ==> v.get(key) is None,
        member_is(v, key, JsonView::Null) ==> v.get(key) == Some(JsonView::Null),
{
    envelope_laws::law_members_by_name(v, key, JsonView::Number(n));
    envelope_laws::law_members_by_name(v, key, JsonView::Null);
}

proof fn lemma_numbers(v: JsonView, key: Seq<char>, nums: Seq<Num>, n: nat)
    requires
        v is Object,
        numbers_are(v, key, nums, n),
    ensures
        v.get(key) matches Some(a) && renderer::numbers(a, n) && renderer::numbers_of(a) == nums,
        cc5_json::numbers_at(v.get(key), n) == Some(nums),
        cc5_json::numbers_maybe(v.get(key), n) == Some(Some(nums)),
{
    let a = choose|a: JsonView| #[trigger] member_is(v, key, a) && lists(a, nums);
    envelope_laws::law_members_by_name(v, key, a);
    lemma_lists(a, nums);
}

/// A field of a record is read by its name from an object and by its place from an
/// array; an array must not be longer than the record.
pub proof fn law_fields_by_name_or_place(
    v: JsonView,
    key: Seq<char>,
    at: nat,
    n: nat,
    x: JsonView,
)
    ensures
        v is Object && member_is(v, key, x) ==> cc5_json::field(v, key, at) == Some(x),
        v is Object && member_missing(v, key) ==> cc5_json::field(v, key, at) is None,
        v matches JsonView::Array(items) ==> (at < items.len() ==> cc5_json::field(v, key, at)
            == Some(items[at as int])) && (at >= items.len() ==> cc5_json::field(v, key, at)
            is None),
        v is Object ==> cc5_json::is_record(v, n),
        v matches JsonView::Array(items) ==> cc5_json::is_record(v, n) == (items.len() <= n),
        !(v is Object) && !(v is Array) ==> !cc5_json::is_record(v, n) && cc5_json::field(
            v,
            key,
            at,
        ) is None,
{
    envelope_laws::law_members_by_name(v, key, x);
}

/// What every collision shape says: where it is, how it is turned, and whether it is
/// active, which it is unless the record says otherwise.
pub open spec fn placed(
    v: JsonView,
    active: bool,
    at: Seq<Num>,
    turned: Seq<Num>,
    friction: Num,
    elasticity: Num,
) -> bool {
    &&& v is Object
    &&& member_is(v, "Bone Active"@, JsonView::Bool(active)) || (member_missing(v, "Bone Active"@)
        && active)
    &&& numbers_are(v, "WorldTranslate"@, at, 3)
    &&& numbers_are(v, "WorldRotationQ"@, turned, 4)
    &&& number_or(v, "Friction"@, friction, Num::Thousandths(400))
    &&& number_or(v, "Elasticity"@, elasticity, Num::Thousandths(100))
}

/// A record of the kind `Capsule` is the capsule that its fields describe.
pub proof fn law_capsule_record(
    v: JsonView,
    active: bool,
    at: Seq<Num>,
    turned: Seq<Num>,
    friction: Num,
    elasticity: Num,
    radius: Num,
    length: Num,
)
    requires
        placed(v, active, at, turned, friction, elasticity),
        member_is(v, "Bound Type"@, JsonView::Str("Capsule"@)),
        number_is(v, "Radius"@, radius),
        number_is(v, "Capsule Length"@, length),
    ensures
        cc5_json::shape_of(v) == Some(
            (ShapeView::Capsule {
                bone_active: active,
                world_translate: at,
                world_rotation_q: turned,
                radius,
                capsule_length: length,
                friction,
                elasticity,
            }),
        ),
{
    lemma_placed(v, active, at, turned, friction, elasticity);
    envelope_laws::law_members_by_name(v, "Bound Type"@, JsonView::Str("Capsule"@));
    lemma_number(v, "Radius"@, radius);
    lemma_number(v, "Capsule Length"@, length);
}

proof fn lemma_placed(
    v: JsonView,
    active: bool,
    at: Seq<Num>,
    turned: Seq<Num>,
    friction: Num,
    elasticity: Num,
)
    requires
        placed(v, active, at, turned, friction, elasticity),
    ensures
        cc5_json::flag(v.get("Bone Active"@)) == Some(active),
        cc5_json::numbers_at(v.get("WorldTranslate"@), 3) == Some(at),
        cc5_json::numbers_at(v.get("WorldRotationQ"@), 4) == Some(turned),
        cc5_json::number_or(v.get("Friction"@), Num::Thousandths(400)) == Some(friction),
        cc5_json::number_or(v.get("Elasticity"@), Num::Thousandths(100)) == Some(elasticity),
{
    envelope_laws::law_members_by_name(v, "Bone Active"@, JsonView::Bool(active));
    lemma_numbers(v, "WorldTranslate"@, at, 3);
    lemma_numbers(v, "WorldRotationQ"@, turned, 4);
    lemma_number(v, "Friction"@, friction);
    lemma_number(v, "Elasticity"@, elasticity);
}

/// A record of the kind `Box` is the box that its fields describe; its extents may be
/// missing or null.
pub proof fn law_box_record(
    v: JsonView,
    active: bool,
    at: Seq<Num>,
    turned: Seq<Num>,
    friction: Num,
    elasticity: Num,
    extents: Option<Seq<Num>>,
)
    requires
        placed(v, active, at, turned, friction, elasticity),
        member_is(v, "Bound Type"@, JsonView::Str("Box"@)),
        match extents {
            Some(e) => numbers_are(v, "Extents"@, e, 3),
            None => member_missing(v, "Extents"@) || member_is(v, "Extents"@, JsonView::Null),
        },
    ensures
        cc5_json::shape_of(v) == Some(
            (ShapeView::Box {
                bone_active: active,
                world_translate: at,
                world_rotation_q: turned,
                extents,
                friction,
                elasticity,
            }),
        ),
{
    lemma_placed(v, active, at, turned, friction, elasticity);
    envelope_laws::law_members_by_name(v, "Bound Type"@, JsonView::Str("Box"@));
    envelope_laws::law_members_by_name(v, "Extents"@, JsonView::Null);
    match extents {
        Some(e) => {
            lemma_numbers(v, "Extents"@, e, 3);
        },
        None => {},
    }
    reveal_strlit("Box");
    reveal_strlit("Capsule");
    assert("Box"@.len() == 3 && "Capsule"@.len() == 7);
}

/// A record without a place or a rotation, of another kind, or a capsule without
/// radius or length is no shape.
pub proof fn law_incomplete_records_are_no_shapes(v: JsonView, kind: Seq<char>)
    requires
        v is Object,
        ({
            ||| member_missing(v, "Bound Type"@)
            ||| member_missing(v, "WorldTranslate"@)
            ||| member_missing(v, "WorldRotationQ"@)
            ||| member_is(v, "Bound Type"@, JsonView::Str(kind)) && kind != "Capsule"@ && kind
                != "Box"@
            ||| member_is(v, "Bound Type"@, JsonView::Str("Capsule"@)) && (member_missing(
                v,
                "Radius"@,
            ) || member_missing(v, "Capsule Length"@))
        }),
    ensures
        cc5_json::shape_of(v) is None,
{
    envelope_laws::law_members_by_name(v, "Bound Type"@, JsonView::Str(kind));
    envelope_laws::law_members_by_name(v, "Bound Type"@, JsonView::Str("Capsule"@));
    envelope_laws::law_members_by_name(v, "WorldTranslate"@, v);
    envelope_laws::law_members_by_name(v, "WorldRotationQ"@, v);
    envelope_laws::law_members_by_name(v, "Radius"@, v);
    envelope_laws::law_members_by_name(v, "Capsule Length"@, v);
}

/// The collision block is read member by member, in order: each member that is a
/// shape adds that shape to its bone, each bone that is an object is added under its
/// name, and everything else is passed over.
pub proof fn law_collision_block_in_order(
    members: Seq<(Seq<char>, JsonView)>,
    name: Seq<char>,
    x: JsonView,
)
    ensures
        cc5_json::shapes_of(Seq::empty()).len() == 0,
        cc5_json::bones_of(Seq::empty()).len() == 0,
        cc5_json::shape_of(x) matches Some(s) ==> cc5_json::shapes_of(members.push((name, x)))
            == cc5_json::shapes_of(members).push(s),
        cc5_json::shape_of(x) is None ==> cc5_json::shapes_of(members.push((name, x)))
            == cc5_json::shapes_of(members),
        x matches JsonView::Object(shapes) ==> cc5_json::bones_of(members.push((name, x)))
            == cc5_json::bones_of(members).push((name, cc5_json::shapes_of(shapes))),
        !(x is Object) ==> cc5_json::bones_of(members.push((name, x))) == cc5_json::bones_of(
            members,
        ),
{
    assert(members.push((name, x)).drop_last() =~= members);
}

/// The soft-physics block is read mesh by mesh, in order: a mesh counts by its first
/// material, and is passed over where it has none.
pub proof fn law_soft_block_in_order(
    meshes: Seq<(Seq<char>, JsonView)>,
    name: Seq<char>,
    mesh: JsonView,
    materials: Seq<(Seq<char>, JsonView)>,
)
    requires
        member_is(mesh, "Materials"@, JsonView::Object(materials)),
    ensures
        cc5_json::meshes_of(Seq::empty()).len() == 0,
        materials.len() > 0 ==> cc5_json::meshes_of(meshes.push((name, mesh)))
            == cc5_json::meshes_of(meshes).push((name, cc5_json::soft_of(materials[0].1))),
        materials.len() == 0 ==> cc5_json::meshes_of(meshes.push((name, mesh)))
            == cc5_json::meshes_of(meshes),
{
    assert(meshes.push((name, mesh)).drop_last() =~= meshes);
    envelope_laws::law_members_by_name(mesh, "Materials"@, JsonView::Object(materials));
}

/// The values of a material are its numbers `Mass`, `Damping`, `Drag` and `Stiffness
/// Frequency`; one that is missing is 1, 0.5, 0 and 10.
pub proof fn law_material_values(
    material: JsonView,
    mass: Num,
    damping: Num,
    drag: Num,
    frequency: Num,
)
    requires
        material is Object,
        number_or(material, "Mass"@, mass, Num::Thousandths(1000)),
        number_or(material, "Damping"@, damping, Num::Thousandths(500)),
        number_or(material, "Drag"@, drag, Num::Thousandths(0)),
        number_or(material, "Stiffness Frequency"@, frequency, Num::Thousandths(10000)),
    ensures
        cc5_json::soft_of(material) == (Cc5SoftPhysics {
            mass,
            damping,
            drag,
            stiffness_freq_hz: frequency,
        }),
{
    lemma_number(material, "Mass"@, mass);
    lemma_number(material, "Damping"@, damping);
    lemma_number(material, "Drag"@, drag);
    lemma_number(material, "Stiffness Frequency"@, frequency);
}

/// The tuning block sets what it gives as numbers and nothing that is missing or
/// null.
pub proof fn law_tuning_record(
    v: JsonView,
    mass: Option<Num>,
    stiffness: Option<Num>,
    damping: Option<Num>,
    limit: Option<Num>,
)
    requires
        v is Object,
        number_maybe(v, "Mass"@, mass),
        number_maybe(v, "Linear Stiffness"@, stiffness),
        number_maybe(v, "Linear Damping"@, damping),
        number_maybe(v, "Translation Limit"@, limit),
    ensures
        cc5_json::tuning_of(v) == Some(
            (Cc5BreastTuning {
                mass,
                linear_stiffness: stiffness,
                linear_damping: damping,
                translation_limit: limit,
            }),
        ),
{
    let z = Num::Unsigned(0);
    lemma_number(v, "Mass"@, if mass is Some {
        mass->0
    } else {
        z
    });
    lemma_number(v, "Linear Stiffness"@, if stiffness is Some {
        stiffness->0
    } else {
        z
    });
    lemma_number(v, "Linear Damping"@, if damping is Some {
        damping->0
    } else {
        z
    });
    lemma_number(v, "Translation Limit"@, if limit is Some {
        limit->0
    } else {
        z
    });
}

/// The physics data stand under `Physics` of the first member of `Object` of the
/// document's first member; each of their blocks is read by its name, and one that is
/// missing gives nothing.
pub proof fn law_where_the_physics_stand(
    root: Seq<(Seq<char>, JsonView)>,
    object: Seq<(Seq<char>, JsonView)>,
    physics: JsonView,
    shapes: Seq<(Seq<char>, JsonView)>,
    soft: JsonView,
    meshes: Seq<(Seq<char>, JsonView)>,
    tuning: JsonView,
)
    requires
        root.len() > 0,
        member_is(root[0].1, "Object"@, JsonView::Object(object)),
        object.len() > 0,
        member_is(object[0].1, "Physics"@, physics),
    ensures
        ({
            let read = cc5_json::physics_of(JsonView::Object(root));
            &&& member_is(physics, "Collision Shapes"@, JsonView::Object(shapes)) ==> read.by_bone
                == cc5_json::bones_of(shapes)
            &&& member_missing(physics, "Collision Shapes"@) ==> read.by_bone.len() == 0
            &&& member_is(physics, "Soft Physics"@, soft) && member_is(
                soft,
                "Meshes"@,
                JsonView::Object(meshes),
            ) ==> read.soft == cc5_json::meshes_of(meshes)
            &&& member_missing(physics, "Soft Physics"@) ==> read.soft.len() == 0
            &&& member_is(physics, "Breast Tuning"@, tuning) ==> read.breast_tuning
                == cc5_json::tuning_of(tuning)
            &&& member_missing(physics, "Breast Tuning"@) ==> read.breast_tuning is None
        }),
{
    envelope_laws::law_members_by_name(root[0].1, "Object"@, JsonView::Object(object));
    envelope_laws::law_members_by_name(object[0].1, "Physics"@, physics);
    envelope_laws::law_members_by_name(physics, "Collision Shapes"@, JsonView::Object(shapes));
    envelope_laws::law_members_by_name(physics, "Soft Physics"@, soft);
    envelope_laws::law_members_by_name(soft, "Meshes"@, JsonView::Object(meshes));
    envelope_laws::law_members_by_name(physics, "Breast Tuning"@, tuning);
}

/// A document without such a block holds no physics data.
pub proof fn law_no_physics_no_data(root: JsonView, object: Seq<(Seq<char>, JsonView)>)
    requires
        ({
            ||| !(root is Object)
            ||| root is Object && (root->Object_0).len() == 0
            ||| root is Object && member_missing((root->Object_0)[0].1, "Object"@)
            ||| root is Object && (root->Object_0).len() > 0 && member_is(
                (root->Object_0)[0].1,
                "Object"@,
                JsonView::Object(object),
            ) && (object.len() == 0 || member_missing(object[0].1, "Physics"@))
        }),
    ensures
        cc5_json::physics_of(root).by_bone.len() == 0,
        cc5_json::physics_of(root).soft.len() == 0,
        cc5_json::physics_of(root).breast_tuning is None,
{
    if root is Object && (root->Object_0).len() > 0 {
        let first = (root->Object_0)[0].1;
        envelope_laws::law_members_by_name(first, "Object"@, JsonView::Object(object));
        if object.len() > 0 {
            envelope_laws::law_members_by_name(object[0].1, "Physics"@, root);
        }
    }
}

/// Physics data are spoken of by exactly what they hold, in order.
pub proof fn law_physics_by_contents(p: Cc5Physics, i: int, j: int)
    ensures
        p@.by_bone.len() == p.by_bone@.len(),
        0 <= i < p.by_bone@.len() ==> {
            &&& p@.by_bone[i].0 == p.by_bone@[i].0@
            &&& p@.by_bone[i].1.len() == p.by_bone@[i].1@.len()
            &&& 0 <= j < p.by_bone@[i].1@.len() ==> p@.by_bone[i].1[j] == p.by_bone@[i].1@[j]@
        },
        p@.soft.len() == p.soft_physics_by_mesh@.len(),
        0 <= i < p.soft_physics_by_mesh@.len() ==> p@.soft[i] == (
            p.soft_physics_by_mesh@[i].0@,
            p.soft_physics_by_mesh@[i].1,
        ),
        p@.breast_tuning == p.breast_tuning,
{
}

/// A shape is spoken of by exactly what it holds.
pub proof fn law_shape_by_contents(s: Cc5Shape)
    ensures
        match s {
            Cc5Shape::Capsule {
                bone_active,
                world_translate,
                world_rotation_q,
                radius,
                capsule_length,
                friction,
                elasticity,
            } => s@ == (ShapeView::Capsule {
                bone_active,
                world_translate: world_translate@,
                world_rotation_q: world_rotation_q@,
                radius,
                capsule_length,
                friction,
                elasticity,
            }),
            Cc5Shape::Box {
                bone_active,
                world_translate,
                world_rotation_q,
                extents,
                friction,
                elasticity,
            } => (s@ matches ShapeView::Box {
                bone_active: a,
                world_translate: t,
                world_rotation_q: q,
                extents: e,
                friction: f,
                elasticity: l,
            } && a == bone_active && t == world_translate@ && q == world_rotation_q@ && f
                == friction && l == elasticity && (extents matches Some(x) ==> e == Some(x@)) && (
            extents is None ==> e is None)),
        },
{
}

/// A bone's shapes are those of its first entry.
pub proof fn law_first_bone_counts(
    bones: Seq<(Seq<char>, Seq<ShapeView>)>,
    name: Seq<char>,
    k: int,
)
    requires
        forall|j: int| 0 <= j < k ==> (#[trigger] bones[j]).0 != name,
        0 <= k <= bones.len(),
        k < bones.len() ==> bones[k].0 == name,
    ensures
        k < bones.len() ==> cc5_query::shapes_named(bones, name) == Some(bones[k].1),
        k == bones.len() ==> cc5_query::shapes_named(bones, name) is None,
    decreases bones.len(),
{
    if k > 0 {
        assert(bones[0].0 != name);
        let rest = bones.subrange(1, bones.len() as int);
        assert forall|j: int| 0 <= j < k - 1 implies (#[trigger] rest[j]).0 != name by {
            assert(rest[j] == bones[j + 1]);
        }
        if k < bones.len() {
            assert(rest[k - 1] == bones[k]);
        }
        law_first_bone_counts(rest, name, k - 1);
    }
}

/// The radii of some shapes are those of its capsules, in order.
pub proof fn law_only_capsules_have_radii(shapes: Seq<ShapeView>, s: ShapeView)
    ensures
        cc5_query::capsule_radii(Seq::empty()).len() == 0,
        s matches ShapeView::Capsule { radius, .. } ==> cc5_query::capsule_radii(shapes.push(s))
            == cc5_query::capsule_radii(shapes).push(radius),
        s is Box ==> cc5_query::capsule_radii(shapes.push(s)) == cc5_query::capsule_radii(shapes),
{
    assert(shapes.push(s).drop_last() =~= shapes);
}

/// What a measure answers for the capsules of a bone; nothing for a bone without an
/// entry.
pub open spec fn size_at<R>(
    bones: Seq<(Seq<char>, Seq<ShapeView>)>,
    name: Seq<char>,
    f: spec_fn(Seq<Num>) -> Option<R>,
) -> Option<R> {
    match cc5_query::shapes_named(bones, name) {
        Some(shapes) => f(cc5_query::capsule_radii(shapes)),
        None => None,
    }
}

/// The chest is measured at the upper spine, else at the lower spine, else at the
/// hip; the breast at the left, else at the right.
pub proof fn law_where_chest_and_breast_are_measured<R, M: Fn(&Vec<Num>) -> Option<R>>(
    bones: Seq<(Seq<char>, Seq<ShapeView>)>,
    measure: M,
    f: spec_fn(Seq<Num>) -> Option<R>,
    chest: Option<R>,
    breast: Option<R>,
)
    requires
        forall|v: &Vec<Num>, r: Option<R>| #[trigger]
            call_ensures(measure, (v,), r) ==> r == f(v@),
        cc5_query::first_measured(bones, cc5_query::chest_bones(), measure, chest),
        cc5_query::first_measured(bones, cc5_query::breast_bones(), measure, breast),
    ensures
        ({
            let upper = size_at(bones, "CC_Base_Spine02"@, f);
            let lower = size_at(bones, "CC_Base_Spine01"@, f);
            let hip = size_at(bones, "CC_Base_Hip"@, f);
            let left = size_at(bones, "CC_Base_L_Breast"@, f);
            let right = size_at(bones, "CC_Base_R_Breast"@, f);
            &&& upper is Some ==> chest == upper
            &&& upper is None && lower is Some ==> chest == lower
            &&& upper is None && lower is None ==> chest == hip
            &&& left is Some ==> breast == left
            &&& left is None ==> breast == right
        }),
{
    reveal_with_fuel(cc5_query::first_measured, 4);
    let all = cc5_query::chest_bones();
    assert(all.subrange(1, 3) =~= seq!["CC_Base_Spine01"@, "CC_Base_Hip"@]);
    assert(all.subrange(1, 3).subrange(1, 2) =~= seq!["CC_Base_Hip"@]);
    let two = cc5_query::breast_bones();
    assert(two.subrange(1, 2) =~= seq!["CC_Base_R_Breast"@]);
}

/// The first mesh, by its name in lower case, that is wanted.
proof fn lemma_first_soft(
    soft: Seq<(Seq<char>, Cc5SoftPhysics)>,
    wanted: spec_fn(Seq<char>) -> bool,
    k: int,
)
    requires
        0 <= k <= soft.len(),
        forall|j: int| 0 <= j < k ==> !wanted(lowercase::lowered((#[trigger] soft[j]).0)),
        k < soft.len() ==> wanted(lowercase::lowered(soft[k].0)),
    ensures
        k < soft.len() ==> cc5_query::first_soft(soft, wanted) == Some(soft[k].1),
        k == soft.len() ==> cc5_query::first_soft(soft, wanted) is None,
    decreases soft.len(),
{
    if k > 0 {
        assert(!wanted(lowercase::lowered(soft[0].0)));
        let rest = soft.subrange(1, soft.len() as int);
        assert forall|j: int| 0 <= j < k - 1 implies !wanted(
            lowercase::lowered((#[trigger] rest[j]).0),
        ) by {
            assert(rest[j] == soft[j + 1]);
        }
        if k < soft.len() {
            assert(rest[k - 1] == soft[k]);
        }
        lemma_first_soft(rest, wanted, k - 1);
    }
}

/// A name speaks of the body, the skin or the torso.
pub open spec fn of_the_body(name: Seq<char>) -> bool {
    let lower = lowercase::lowered(name);
    text::contains(lower, "body"@) || text::contains(lower, "skin"@) || text::contains(
        lower,
        "torso"@,
    )
}

/// A name speaks of the hair.
pub open spec fn of_the_hair(name: Seq<char>) -> bool {
    text::contains(lowercase::lowered(name), "hair"@)
}

/// A name speaks of a sweater, a shirt, pants, a dress or cloth.
pub open spec fn of_a_garment(name: Seq<char>) -> bool {
    let lower = lowercase::lowered(name);
    text::contains(lower, "sweater"@) || text::contains(lower, "shirt"@) || text::contains(
        lower,
        "pants"@,
    ) || text::contains(lower, "dress"@) || text::contains(lower, "cloth"@)
}

/// The body's values are those of the first mesh that is named after body, skin or
/// torso.
pub proof fn law_body_values_by_name(soft: Seq<(Seq<char>, Cc5SoftPhysics)>, k: int)
    requires
        0 <= k <= soft.len(),
        forall|j: int| 0 <= j < k ==> !of_the_body((#[trigger] soft[j]).0),
        k < soft.len() ==> of_the_body(soft[k].0),
    ensures
        k < soft.len() ==> cc5_query::body_soft(soft) == Some(soft[k].1),
        k == soft.len() ==> cc5_query::body_soft(soft) is None,
{
    let wanted = |lower: Seq<char>| cc5_query::names_body(lower);
    assert forall|j: int| 0 <= j < k implies !wanted(
        lowercase::lowered((#[trigger] soft[j]).0),
    ) by {
        assert(!of_the_body(soft[j].0));
    }
    lemma_first_soft(soft, wanted, k);
}

/// The hair's values are those of the first mesh that is named after hair, wherever
/// it stands, and where there is none those of the first mesh that is no garment.
pub proof fn law_hair_values_by_name(soft: Seq<(Seq<char>, Cc5SoftPhysics)>, k: int, g: int)
    requires
        0 <= k <= soft.len(),
        forall|j: int| 0 <= j < k ==> !of_the_hair((#[trigger] soft[j]).0),
        k < soft.len() ==> of_the_hair(soft[k].0),
        0 <= g <= soft.len(),
        forall|j: int| 0 <= j < g ==> of_a_garment((#[trigger] soft[j]).0),
        g < soft.len() ==> !of_a_garment(soft[g].0),
    ensures
        k < soft.len() ==> cc5_query::hair_soft(soft) == Some(soft[k].1),
        k == soft.len() && g < soft.len() ==> cc5_query::hair_soft(soft) == Some(soft[g].1),
        k == soft.len() && g == soft.len() ==> cc5_query::hair_soft(soft) is None,
{
    let hair = |lower: Seq<char>| text::contains(lower, "hair"@);
    let other = |lower: Seq<char>| !cc5_query::names_garment(lower);
    assert forall|j: int| 0 <= j < k implies !hair(lowercase::lowered((#[trigger] soft[j]).0)) by {
        assert(!of_the_hair(soft[j].0));
    }
    assert forall|j: int| 0 <= j < g implies !other(
        lowercase::lowered((#[trigger] soft[j]).0),
    ) by {
        assert(of_a_garment(soft[j].0));
    }
    lemma_first_soft(soft, hair, k);
    lemma_first_soft(soft, other, g);
}

/// Which lower-case names stand for a body surface and for a garment.
pub proof fn law_body_and_garment_names(lower: Seq<char>)
    ensures
        cc5_query::names_body(lower) <==> text::contains(lower, "body"@) || text::contains(
            lower,
            "skin"@,
        ) || text::contains(lower, "torso"@),
        cc5_query::names_garment(lower) <==> text::contains(lower, "sweater"@) || text::contains(
            lower,
            "shirt"@,
        ) || text::contains(lower, "pants"@) || text::contains(lower, "dress"@) || text::contains(
            lower,
            "cloth"@,
        ),
{
}

/// A collider record of the shape `capsule` has a radius and a half height, one of
/// the shape `sphere` a radius; a null entry switches the bone's collider off.
pub proof fn law_collider_records(v: JsonView, radius: Num, half_height: Num)
    requires
        v is Object,
        number_is(v, "radius"@, radius),
    ensures
        member_is(v, "shape"@, JsonView::Str("capsule"@)) && number_is(
            v,
            "half_height"@,
            half_height,
        ) ==> sidecar::entry_of(v) == Some(
            Some((BodyColliderOverride::Capsule { radius, half_height })),
        ),
        member_is(v, "shape"@, JsonView::Str("sphere"@)) ==> sidecar::entry_of(v) == Some(
            Some((BodyColliderOverride::Sphere { radius })),
        ),
        member_is(v, "shape"@, JsonView::Str("capsule"@)) && member_missing(v, "half_height"@)
            ==> sidecar::entry_of(v) is None,
        member_missing(v, "shape"@) ==> sidecar::entry_of(v) is None,
        sidecar::entry_of(JsonView::Null) == Some(None::<BodyColliderOverride>),
{
    lemma_number(v, "radius"@, radius);
    lemma_number(v, "half_height"@, half_height);
    envelope_laws::law_members_by_name(v, "shape"@, JsonView::Str("capsule"@));
    envelope_laws::law_members_by_name(v, "shape"@, JsonView::Str("sphere"@));
    reveal_strlit("capsule");
    reveal_strlit("sphere");
    assert("capsule"@.len() == 7 && "sphere"@.len() == 6);
}

/// Lists are read item by item, in order, and one bad item spoils the list.
pub proof fn law_lists_item_by_item(
    members: Seq<(Seq<char>, JsonView)>,
    items: Seq<JsonView>,
    name: Seq<char>,
    x: JsonView,
)
    ensures
        sidecar::entries_of(Seq::empty()) matches Some(e) && e.len() == 0,
        match (sidecar::entries_of(members), sidecar::entry_of(x)) {
            (Some(init), Some(e)) => sidecar::entries_of(members.push((name, x))) == Some(
                init.push((name, e)),
            ),
            _ => sidecar::entries_of(members.push((name, x))) is None,
        },
        sidecar::strings_of(Seq::empty()) matches Some(e) && e.len() == 0,
        match (sidecar::strings_of(items), x) {
            (Some(init), JsonView::Str(s)) => sidecar::strings_of(items.push(x)) == Some(
                init.push(s),
            ),
            _ => sidecar::strings_of(items.push(x)) is None,
        },
        sidecar::chains_of(Seq::empty()) matches Some(e) && e.len() == 0,
        match (sidecar::chains_of(items), sidecar::chain_of(x)) {
            (Some(init), Some(c)) => sidecar::chains_of(items.push(x)) == Some(init.push(c)),
            _ => sidecar::chains_of(items.push(x)) is None,
        },
        morph_map::refs_of(Seq::empty()) matches Some(e) && e.len() == 0,
        match (morph_map::refs_of(items), morph_map::ref_of(x)) {
            (Some(init), Some(r)) => morph_map::refs_of(items.push(x)) == Some(init.push(r)),
            _ => morph_map::refs_of(items.push(x)) is None,
        },
{
    assert(members.push((name, x)).drop_last() =~= members);
    assert(items.push(x).drop_last() =~= items);
}

/// A chain record names its root bone and may set its values; what it does not set is
/// stiffness 30, damping 2.5, 50 g a link and 1.5 cm.
pub proof fn law_chain_record(
    v: JsonView,
    root: Seq<char>,
    stiffness: Num,
    damping: Num,
    mass: Num,
    radius: Num,
)
    requires
        v is Object,
        number_or(v, "stiffness"@, stiffness, Num::Thousandths(30000)),
        number_or(v, "damping"@, damping, Num::Thousandths(2500)),
        number_or(v, "mass_per_link"@, mass, Num::Thousandths(50)),
        number_or(v, "collider_radius"@, radius, Num::Thousandths(15)),
    ensures
        member_is(v, "root_bone"@, JsonView::Str(root)) ==> sidecar::chain_of(v) == Some(
            (ChainView {
                root_bone: root,
                stiffness,
                damping,
                mass_per_link: mass,
                collider_radius: radius,
            }),
        ),
        member_missing(v, "root_bone"@) ==> sidecar::chain_of(v) is None,
{
    envelope_laws::law_members_by_name(v, "root_bone"@, JsonView::Str(root));
    lemma_number(v, "stiffness"@, stiffness);
    lemma_number(v, "damping"@, damping);
    lemma_number(v, "mass_per_link"@, mass);
    lemma_number(v, "collider_radius"@, radius);
}

/// A section on secondary motion gives its patterns and chains; without patterns it
/// stands for those of hair, breast, skirt and tongue, without chains for none.
pub proof fn law_motion_record(
    v: JsonView,
    items: Seq<JsonView>,
    patterns: Seq<Seq<char>>,
    chain_items: Seq<JsonView>,
    chains: Seq<ChainView>,
)
    requires
        v is Object,
        (member_is(v, "auto_detect_patterns"@, JsonView::Array(items)) && sidecar::strings_of(items)
            == Some(patterns)) || (member_missing(v, "auto_detect_patterns"@) && patterns == seq![
            "^CC_Base_Hair_.*"@,
            ".*Breast.*"@,
            "^Skirt_.*"@,
            "^CC_Base_Tongue.*"@,
        ]),
        (member_is(v, "chains_override"@, JsonView::Array(chain_items)) && sidecar::chains_of(
            chain_items,
        ) == Some(chains)) || (member_missing(v, "chains_override"@) && chains.len() == 0),
    ensures
        sidecar::motion_of(v) matches Some(m) && m.patterns == patterns && m.chains == chains,
{
    envelope_laws::law_members_by_name(v, "auto_detect_patterns"@, JsonView::Array(items));
    envelope_laws::law_members_by_name(v, "chains_override"@, JsonView::Array(chain_items));
    if chains.len() == 0 {
        assert(chains =~= Seq::empty());
    }
}

/// A sidecar gives its version, palm offset, colliders, secondary motion and play
/// volume, each under its name and as it stands in the document.
pub proof fn law_sidecar_record(
    v: JsonView,
    version: u64,
    palm: Seq<Num>,
    members: Seq<(Seq<char>, JsonView)>,
    motion: JsonView,
    volume: JsonView,
    half: Num,
    ceiling: Num,
)
    requires
        v is Object,
        number_is(v, "version"@, Num::Unsigned(version)),
        numbers_are(v, "palm_offset_local"@, palm, 3),
        member_is(v, "body_colliders_override"@, JsonView::Object(members)),
        member_is(v, "secondary_motion"@, motion),
        motion is Object,
        member_is(v, "play_volume"@, volume),
        volume is Object,
        number_is(volume, "half_extents_xz"@, half),
        number_is(volume, "ceiling_y"@, ceiling),
    ensures
        version <= 0xffff_ffff && sidecar::entries_of(members) is Some && sidecar::motion_of(motion)
            is Some ==> (sidecar::sidecar_of(v) matches Some(s) && {
            &&& s.version == version
            &&& s.palm_offset_local == Some(palm)
            &&& Some(s.colliders) == sidecar::entries_of(members)
            &&& s.secondary_motion == sidecar::motion_of(motion)
            &&& s.play_volume == Some(
                (PlayVolumeRaw { half_extents_xz: half, ceiling_y: ceiling }),
            )
        }),
        version > 0xffff_ffff || sidecar::entries_of(members) is None || sidecar::motion_of(motion)
            is None ==> sidecar::sidecar_of(v) is None,
{
    lemma_number(v, "version"@, Num::Unsigned(version));
    lemma_numbers(v, "palm_offset_local"@, palm, 3);
    envelope_laws::law_members_by_name(
        v,
        "body_colliders_override"@,
        JsonView::Object(members),
    );
    envelope_laws::law_members_by_name(v, "secondary_motion"@, motion);
    envelope_laws::law_members_by_name(v, "play_volume"@, volume);
    lemma_number(volume, "half_extents_xz"@, half);
    lemma_number(volume, "ceiling_y"@, ceiling);
}

/// What a sidecar does not say, or sets to null, it leaves open: no palm offset, no
/// collider, no secondary motion, no play volume.
pub proof fn law_sidecar_leaves_open(v: JsonView, version: u32)
    requires
        v is Object,
        number_is(v, "version"@, Num::Unsigned(version as u64)),
        member_missing(v, "palm_offset_local"@) || member_is(
            v,
            "palm_offset_local"@,
            JsonView::Null,
        ),
        member_missing(v, "body_colliders_override"@),
        member_missing(v, "secondary_motion"@) || member_is(
            v,
            "secondary_motion"@,
            JsonView::Null,
        ),
        member_missing(v, "play_volume"@) || member_is(v, "play_volume"@, JsonView::Null),
    ensures
        sidecar::sidecar_of(v) matches Some(s) && {
            &&& s.version == version
            &&& s.palm_offset_local is None
            &&& s.colliders.len() == 0
            &&& s.secondary_motion is None
            &&& s.play_volume is None
        },
{
    lemma_number(v, "version"@, Num::Unsigned(version as u64));
    envelope_laws::law_members_by_name(v, "palm_offset_local"@, JsonView::Null);
    envelope_laws::law_members_by_name(v, "body_colliders_override"@, JsonView::Null);
    envelope_laws::law_members_by_name(v, "secondary_motion"@, JsonView::Null);
    envelope_laws::law_members_by_name(v, "play_volume"@, JsonView::Null);
}

/// A sidecar and its parts are spoken of by exactly what they hold, in order.
pub proof fn law_sidecar_by_contents(
    s: SidecarRaw,
    m: SecondaryMotionRaw,
    c: JiggleChainRaw,
    i: int,
)
    ensures
        s@.version == s.version,
        s.palm_offset_local matches Some(a) ==> s@.palm_offset_local == Some(a@),
        s.palm_offset_local is None ==> s@.palm_offset_local is None,
        s@.colliders.len() == s.body_colliders_override@.len(),
        0 <= i < s.body_colliders_override@.len() ==> s@.colliders[i] == (
            s.body_colliders_override@[i].0@,
            s.body_colliders_override@[i].1,
        ),
        s.secondary_motion matches Some(x) ==> s@.secondary_motion == Some(x@),
        s.secondary_motion is None ==> s@.secondary_motion is None,
        s@.play_volume == s.play_volume,
        m@.patterns.len() == m.auto_detect_patterns@.len(),
        0 <= i < m.auto_detect_patterns@.len() ==> m@.patterns[i] == m.auto_detect_patterns@[i]@,
        m@.chains.len() == m.chains_override@.len(),
        0 <= i < m.chains_override@.len() ==> m@.chains[i] == m.chains_override@[i]@,
        c@.root_bone == c.root_bone@,
        c@.stiffness == c.stiffness,
        c@.damping == c.damping,
        c@.mass_per_link == c.mass_per_link,
        c@.collider_radius == c.collider_radius,
{
}

/// A record of the facial map names a morph target, its factor and the meshes that
/// have it; without one of them it is none.
pub proof fn law_morph_record(
    v: JsonView,
    morph: Seq<char>,
    weight: Num,
    items: Seq<JsonView>,
    meshes: Seq<Seq<char>>,
)
    requires
        v is Object,
    ensures
        member_is(v, "morph"@, JsonView::Str(morph)) && number_is(v, "weight"@, weight)
            && member_is(v, "meshes"@, JsonView::Array(items)) && sidecar::strings_of(items)
            == Some(meshes) ==> morph_map::ref_of(v) == Some((RefView { morph, weight, meshes })),
        member_missing(v, "morph"@) || member_missing(v, "weight"@) || member_missing(v, "meshes"@)
            ==> morph_map::ref_of(v) is None,
{
    envelope_laws::law_members_by_name(v, "morph"@, JsonView::Str(morph));
    lemma_number(v, "weight"@, weight);
    envelope_laws::law_members_by_name(v, "meshes"@, JsonView::Array(items));
}

/// The facial map is what stands under `mapping`, channel by channel and in order;
/// one bad channel spoils the map.
pub proof fn law_facial_map_record(
    v: JsonView,
    members: Seq<(Seq<char>, JsonView)>,
    name: Seq<char>,
    x: JsonView,
)
    requires
        v is Object,
    ensures
        member_is(v, "mapping"@, JsonView::Object(members)) ==> morph_map::map_of(v)
            == morph_map::channels_of(members),
        member_missing(v, "mapping"@) ==> morph_map::map_of(v) is None,
        morph_map::channels_of(Seq::empty()) matches Some(e) && e.len() == 0,
        !(x is Array) ==> morph_map::channels_of(members.push((name, x))) is None,
        x matches JsonView::Array(items) ==> match (
            morph_map::channels_of(members),
            morph_map::refs_of(items),
        ) {
            (Some(init), Some(refs)) => morph_map::channels_of(members.push((name, x))) == Some(
                init.push((name, refs)),
            ),
            _ => morph_map::channels_of(members.push((name, x))) is None,
        },
{
    envelope_laws::law_members_by_name(v, "mapping"@, JsonView::Object(members));
    assert(members.push((name, x)).drop_last() =~= members);
}

/// A facial map is spoken of by exactly what it holds, in order.
pub proof fn law_facial_map_by_contents(map: ArkitMap, r: MorphRef, i: int, j: int)
    ensures
        map@.len() == map.mapping@.len(),
        0 <= i < map.mapping@.len() ==> {
            &&& map@[i].0 == map.mapping@[i].0@
            &&& map@[i].1.len() == map.mapping@[i].1@.len()
            &&& 0 <= j < map.mapping@[i].1@.len() ==> map@[i].1[j] == map.mapping@[i].1@[j]@
        },
        r@.morph == r.morph@,
        r@.weight == r.weight,
        r@.meshes.len() == r.meshes@.len(),
        0 <= i < r.meshes@.len() ==> r@.meshes[i] == r.meshes@[i]@,
{
}

/// A record may also be written as an array, its fields in their order.
pub proof fn law_records_as_arrays(
    active: bool,
    at: JsonView,
    turned: JsonView,
    three: Seq<Num>,
    four: Seq<Num>,
    a: Num,
    b: Num,
    c: Num,
    d: Num,
)
    requires
        lists(at, three),
        lists(turned, four),
        three.len() == 3,
        four.len() == 4,
    ensures
        cc5_json::shape_of(
            JsonView::Array(
                seq![
                    JsonView::Str("Capsule"@),
                    JsonView::Bool(active),
                    at,
                    turned,
                    JsonView::Number(a),
                    JsonView::Number(b),
                    JsonView::Number(c),
                    JsonView::Number(d),
                ],
            ),
        ) == Some(
            (ShapeView::Capsule {
                bone_active: active,
                world_translate: three,
                world_rotation_q: four,
                radius: a,
                capsule_length: b,
                friction: c,
                elasticity: d,
            }),
        ),
        cc5_json::shape_of(
            JsonView::Array(
                seq![
                    JsonView::Str("Box"@),
                    JsonView::Bool(active),
                    at,
                    turned,
                    at,
                    JsonView::Number(a),
                    JsonView::Number(b),
                ],
            ),
        ) == Some(
            (ShapeView::Box {
                bone_active: active,
                world_translate: three,
                world_rotation_q: four,
                extents: Some(three),
                friction: a,
                elasticity: b,
            }),
        ),
        cc5_json::tuning_of(
            JsonView::Array(
                seq![
                    JsonView::Number(a),
                    JsonView::Number(b),
                    JsonView::Number(c),
                    JsonView::Number(d),
                ],
            ),
        ) == Some(
            (Cc5BreastTuning {
                mass: Some(a),
                linear_stiffness: Some(b),
                linear_damping: Some(c),
                translation_limit: Some(d),
            }),
        ),
{
    lemma_lists(at, three);
    lemma_lists(turned, four);
    reveal_strlit("Box");
    reveal_strlit("Capsule");
    assert("Box"@.len() == 3 && "Capsule"@.len() == 7);
}

/// So may the records of a sidecar and of a facial map.
pub proof fn law_sidecar_records_as_arrays(
    name: Seq<char>,
    list: Seq<JsonView>,
    names: Seq<Seq<char>>,
    chains: Seq<ChainView>,
    members: Seq<(Seq<char>, JsonView)>,
    version: u32,
    a: Num,
    b: Num,
    c: Num,
    d: Num,
)
    ensures
        sidecar::collider_of(
            JsonView::Array(
                seq![JsonView::Str("capsule"@), JsonView::Number(a), JsonView::Number(b)],
            ),
        ) == Some((BodyColliderOverride::Capsule { radius: a, half_height: b })),
        sidecar::collider_of(
            JsonView::Array(seq![JsonView::Str("sphere"@), JsonView::Number(a)]),
        ) == Some((BodyColliderOverride::Sphere { radius: a })),
        sidecar::chain_of(
            JsonView::Array(
                seq![
                    JsonView::Str(name),
                    JsonView::Number(a),
                    JsonView::Number(b),
                    JsonView::Number(c),
                    JsonView::Number(d),
                ],
            ),
        ) == Some(
            (ChainView {
                root_bone: name,
                stiffness: a,
                damping: b,
                mass_per_link: c,
                collider_radius: d,
            }),
        ),
        sidecar::strings_of(list) == Some(names) ==> morph_map::ref_of(
            JsonView::Array(
                seq![JsonView::Str(name), JsonView::Number(a), JsonView::Array(list)],
            ),
        ) == Some((RefView { morph: name, weight: a, meshes: names })),
        morph_map::map_of(JsonView::Array(seq![JsonView::Object(members)]))
            == morph_map::channels_of(members),
        sidecar::volume_maybe(
            Some(JsonView::Array(seq![JsonView::Number(a), JsonView::Number(b)])),
        ) == Some(Some((PlayVolumeRaw { half_extents_xz: a, ceiling_y: b }))),
        sidecar::strings_of(list) == Some(names) ==> (sidecar::motion_of(
            JsonView::Array(seq![JsonView::Array(list), JsonView::Array(Seq::empty())]),
        ) matches Some(m) && m.patterns == names && m.chains.len() == 0),
        (sidecar::sidecar_of(
            JsonView::Array(
                seq![
                    JsonView::Number(Num::Unsigned(version as u64)),
                    JsonView::Null,
                    JsonView::Object(Seq::empty()),
                    JsonView::Null,
                    JsonView::Array(seq![JsonView::Number(a), JsonView::Number(b)]),
                ],
            ),
        ) matches Some(s) && s.version == version && s.palm_offset_local is None && s.colliders.len()
            == 0 && s.secondary_motion is None && s.play_volume == Some(
            (PlayVolumeRaw { half_extents_xz: a, ceiling_y: b }),
        )),
{
    reveal_strlit("capsule");
    reveal_strlit("sphere");
    assert("capsule"@.len() == 7 && "sphere"@.len() == 6);
}

/// A field that is there but of the wrong type is an error for a record, also where it
/// could have been left out; of a material it counts as missing.
pub proof fn law_ill_typed_fields(v: JsonView, x: JsonView, default: Num, key: Seq<char>)
    requires
        v is Object,
    ensures
        !(x is Bool) && member_is(v, "Bone Active"@, x) ==> cc5_json::shape_of(v) is None,
        !(x is Number) && member_is(v, "Friction"@, x) ==> cc5_json::shape_of(v) is None,
        !(x is Number) && member_is(v, "Elasticity"@, x) ==> cc5_json::shape_of(v) is None,
        !(x is Array) && member_is(v, "WorldTranslate"@, x) ==> cc5_json::shape_of(v) is None,
        !(x is Array) && member_is(v, "WorldRotationQ"@, x) ==> cc5_json::shape_of(v) is None,
        !(x is Str) && member_is(v, "Bound Type"@, x) ==> cc5_json::shape_of(v) is None,
        !(x is Number) && !(x is Null) && (member_is(v, "Mass"@, x) || member_is(
            v,
            "Linear Stiffness"@,
            x,
        ) || member_is(v, "Linear Damping"@, x) || member_is(v, "Translation Limit"@, x))
            ==> cc5_json::tuning_of(v) is None,
        !(x is Number) && member_is(v, key, x) ==> cc5_json::pick(v, key, default) == default,
        !(x is Number) && (member_is(v, "stiffness"@, x) || member_is(v, "damping"@, x)
            || member_is(v, "mass_per_link"@, x) || member_is(v, "collider_radius"@, x))
            ==> sidecar::chain_of(v) is None,
        !(x is Str) && member_is(v, "root_bone"@, x) ==> sidecar::chain_of(v) is None,
        !(x is Array) && (member_is(v, "auto_detect_patterns"@, x) || member_is(
            v,
            "chains_override"@,
            x,
        )) ==> sidecar::motion_of(v) is None,
        !(x is Object) && member_is(v, "body_colliders_override"@, x) ==> sidecar::sidecar_of(v)
            is None,
        !(x is Number) && member_is(v, "version"@, x) ==> sidecar::sidecar_of(v) is None,
        !(x is Array) && !(x is Null) && member_is(v, "palm_offset_local"@, x)
            ==> sidecar::sidecar_of(v) is None,
        !(x is Array) && !(x is Object) && !(x is Null) && (member_is(v, "secondary_motion"@, x)
            || member_is(v, "play_volume"@, x)) ==> sidecar::sidecar_of(v) is None,
        !(x is Number) && member_is(v, "radius"@, x) ==> sidecar::collider_of(v) is None,
        !(x is Str) && member_is(v, "shape"@, x) ==> sidecar::collider_of(v) is None,
        !(x is Str) && member_is(v, "morph"@, x) ==> morph_map::ref_of(v) is None,
        !(x is Number) && member_is(v, "weight"@, x) ==> morph_map::ref_of(v) is None,
        !(x is Array) && member_is(v, "meshes"@, x) ==> morph_map::ref_of(v) is None,
        !(x is Object) && member_is(v, "mapping"@, x) ==> morph_map::map_of(v) is None,
{
    envelope_laws::law_members_by_name(v, "Bone Active"@, x);
    envelope_laws::law_members_by_name(v, "Friction"@, x);
    envelope_laws::law_members_by_name(v, "Elasticity"@, x);
    envelope_laws::law_members_by_name(v, "WorldTranslate"@, x);
    envelope_laws::law_members_by_name(v, "WorldRotationQ"@, x);
    envelope_laws::law_members_by_name(v, "Bound Type"@, x);
    envelope_laws::law_members_by_name(v, "Mass"@, x);
    envelope_laws::law_members_by_name(v, "Linear Stiffness"@, x);
    envelope_laws::law_members_by_name(v, "Linear Damping"@, x);
    envelope_laws::law_members_by_name(v, "Translation Limit"@, x);
    envelope_laws::law_members_by_name(v, key, x);
    envelope_laws::law_members_by_name(v, "stiffness"@, x);
    envelope_laws::law_members_by_name(v, "damping"@, x);
    envelope_laws::law_members_by_name(v, "mass_per_link"@, x);
    envelope_laws::law_members_by_name(v, "collider_radius"@, x);
    envelope_laws::law_members_by_name(v, "root_bone"@, x);
    envelope_laws::law_members_by_name(v, "auto_detect_patterns"@, x);
    envelope_laws::law_members_by_name(v, "chains_override"@, x);
    envelope_laws::law_members_by_name(v, "body_colliders_override"@, x);
    envelope_laws::law_members_by_name(v, "version"@, x);
    envelope_laws::law_members_by_name(v, "palm_offset_local"@, x);
    envelope_laws::law_members_by_name(v, "secondary_motion"@, x);
    envelope_laws::law_members_by_name(v, "play_volume"@, x);
    envelope_laws::law_members_by_name(v, "radius"@, x);
    envelope_laws::law_members_by_name(v, "shape"@, x);
    envelope_laws::law_members_by_name(v, "morph"@, x);
    envelope_laws::law_members_by_name(v, "weight"@, x);
    envelope_laws::law_members_by_name(v, "meshes"@, x);
    envelope_laws::law_members_by_name(v, "mapping"@, x);
}

/// A version is a natural number of 32 bits, and zero where it is missing.
pub proof fn law_versions(n: u64, x: JsonView)
    ensures
        sidecar::version_of(None) == Some(0u32),
        n <= 0xffff_ffff ==> sidecar::version_of(Some(JsonView::Number(Num::Unsigned(n)))) == Some(
            n as u32,
        ),
        n > 0xffff_ffff ==> sidecar::version_of(Some(JsonView::Number(Num::Unsigned(n)))) is None,
        !(x is Number) ==> sidecar::version_of(Some(x)) is None,
{
}

/// A mesh without materials, or with none in the list, is passed over; a soft-physics
/// block without meshes, or blocks that are no objects, give nothing.
pub proof fn law_empty_blocks(
    meshes: Seq<(Seq<char>, JsonView)>,
    name: Seq<char>,
    mesh: JsonView,
    physics: JsonView,
    soft: JsonView,
    x: JsonView,
)
    ensures
        member_missing(mesh, "Materials"@) ==> cc5_json::meshes_of(meshes.push((name, mesh)))
            == cc5_json::meshes_of(meshes),
        !(x is Object) && member_is(mesh, "Materials"@, x) ==> cc5_json::meshes_of(
            meshes.push((name, mesh)),
        ) == cc5_json::meshes_of(meshes),
        member_is(physics, "Soft Physics"@, soft) && member_missing(soft, "Meshes"@)
            ==> cc5_json::soft_block(physics).len() == 0,
        !(x is Object) && member_is(physics, "Collision Shapes"@, x) ==> cc5_json::collision_block(
            physics,
        ).len() == 0,
{
    assert(meshes.push((name, mesh)).drop_last() =~= meshes);
    envelope_laws::law_members_by_name(mesh, "Materials"@, x);
    envelope_laws::law_members_by_name(physics, "Soft Physics"@, soft);
    envelope_laws::law_members_by_name(soft, "Meshes"@, x);
    envelope_laws::law_members_by_name(physics, "Collision Shapes"@, x);
}

} // verus!
