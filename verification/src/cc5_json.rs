//! Physics data that Character Creator writes next to an avatar: collision
//! shapes per bone, soft-body values per mesh, and an optional tuning block.
//!
//! Lengths are in centimetres, coordinates are world-space at bind. Numbers
//! are carried as written.
use crate::json;
use crate::json::{Json, JsonView, Num};
use crate::renderer;
use crate::text;
use vstd::prelude::*;

verus! {

/// A collision shape of one bone.
#[derive(Clone, Copy, Debug)]
pub enum Cc5Shape {
    Capsule {
        bone_active: bool,
        world_translate: [Num; 3],
        world_rotation_q: [Num; 4],
        radius: Num,
        capsule_length: Num,
        friction: Num,
        elasticity: Num,
    },
    Box {
        bone_active: bool,
        world_translate: [Num; 3],
        world_rotation_q: [Num; 4],
        extents: Option<[Num; 3]>,
        friction: Num,
        elasticity: Num,
    },
}

/// A collision shape, as plain mathematics.
pub enum ShapeView {
    Capsule {
        bone_active: bool,
        world_translate: Seq<Num>,
        world_rotation_q: Seq<Num>,
        radius: Num,
        capsule_length: Num,
        friction: Num,
        elasticity: Num,
    },
    Box {
        bone_active: bool,
        world_translate: Seq<Num>,
        world_rotation_q: Seq<Num>,
        extents: Option<Seq<Num>>,
        friction: Num,
        elasticity: Num,
    },
}

impl View for Cc5Shape {
    type V = ShapeView;

    open spec fn view(&self) -> ShapeView {
        match *self {
            Cc5Shape::Capsule {
                bone_active,
                world_translate,
                world_rotation_q,
                radius,
                capsule_length,
                friction,
                elasticity,
            } => ShapeView::Capsule {
                bone_active,
                world_translate: world_translate@,
                world_rotation_q: world_rotation_q@,
                radius,
                capsule_length,
                friction,
                elasticity,
            },
            Cc5Shape::Box {
                bone_active,
                world_translate,
                world_rotation_q,
                extents,
                friction,
                elasticity,
            } => ShapeView::Box {
                bone_active,
                world_translate: world_translate@,
                world_rotation_q: world_rotation_q@,
                extents: match extents {
                    Some(e) => Some(e@),
                    None => None,
                },
                friction,
                elasticity,
            },
        }
    }
}

/// Soft-body values of one mesh.
#[derive(Clone, Copy, Debug, PartialEq, Eq, Structural)]
pub struct Cc5SoftPhysics {
    pub mass: Num,
    pub damping: Num,
    pub drag: Num,
    /// Spring stiffness as a frequency in Hz.
    pub stiffness_freq_hz: Num,
}

/// Hand-written tuning of breast motion; what is missing falls back to other
/// sources.
#[derive(Clone, Copy, Debug, PartialEq, Eq, Structural)]
pub struct Cc5BreastTuning {
    pub mass: Option<Num>,
    pub linear_stiffness: Option<Num>,
    pub linear_damping: Option<Num>,
    pub translation_limit: Option<Num>,
}

impl Default for Cc5BreastTuning {
    fn default() -> (r: Self)
        ensures
            r == no_tuning(),
    {
        Cc5BreastTuning {
            mass: None,
            linear_stiffness: None,
            linear_damping: None,
            translation_limit: None,
        }
    }
}

/// Tuning that sets nothing.
pub open spec fn no_tuning() -> Cc5BreastTuning {
    Cc5BreastTuning {
        mass: None,
        linear_stiffness: None,
        linear_damping: None,
        translation_limit: None,
    }
}

/// The physics data of one avatar. Bones and meshes keep the order in which the
/// parser gives them.
#[derive(Debug)]
pub struct Cc5Physics {
    pub by_bone: Vec<(String, Vec<Cc5Shape>)>,
    pub soft_physics_by_mesh: Vec<(String, Cc5SoftPhysics)>,
    pub breast_tuning: Option<Cc5BreastTuning>,
}

/// The physics data of one avatar, as plain mathematics.
#[verifier::ext_equal]
pub struct PhysicsView {
    pub by_bone: Seq<(Seq<char>, Seq<ShapeView>)>,
    pub soft: Seq<(Seq<char>, Cc5SoftPhysics)>,
    pub breast_tuning: Option<Cc5BreastTuning>,
}

/// The views of a list of shapes.
pub open spec fn shapes_view(shapes: Seq<Cc5Shape>) -> Seq<ShapeView> {
    shapes.map_values(|s: Cc5Shape| s@)
}

impl View for Cc5Physics {
    type V = PhysicsView;

    open spec fn view(&self) -> PhysicsView {
        PhysicsView {
            by_bone: self.by_bone@.map_values(
                |b: (String, Vec<Cc5Shape>)| (b.0@, shapes_view(b.1@)),
            ),
            soft: self.soft_physics_by_mesh@.map_values(|m: (String, Cc5SoftPhysics)| (m.0@, m.1)),
            breast_tuning: self.breast_tuning,
        }
    }
}

impl PhysicsView {
    /// No data at all.
    pub open spec fn empty() -> PhysicsView {
        PhysicsView { by_bone: Seq::empty(), soft: Seq::empty(), breast_tuning: None }
    }
}

/// Whether a shape is taken to be active when the file does not say.
pub fn default_true() -> (r: bool)
    ensures
        r == true,
{
    true
}

/// Friction of a shape that names none.
pub open spec fn default_friction() -> Num {
    Num::Thousandths(400)
}

/// Elasticity of a shape that names none.
pub open spec fn default_elasticity() -> Num {
    Num::Thousandths(100)
}

/// A field of a record: by name in an object, by position in an array.
pub open spec fn field(v: JsonView, key: Seq<char>, at: nat) -> Option<JsonView> {
    match v {
        JsonView::Object(members) => json::lookup(members, key),
        JsonView::Array(items) => if at < items.len() {
            Some(items[at as int])
        } else {
            None
        },
        _ => None,
    }
}

/// `v` can stand for a record of `n` fields: an object, or an array of at most
/// `n` items.
pub open spec fn is_record(v: JsonView, n: nat) -> bool {
    match v {
        JsonView::Object(_) => true,
        JsonView::Array(items) => items.len() <= n,
        _ => false,
    }
}

/// A flag that is set unless it is given; an error where it is no boolean.
pub open spec fn flag(v: Option<JsonView>) -> Option<bool> {
    match v {
        None => Some(true),
        Some(x) => x.as_bool(),
    }
}

/// A number that has a default; an error where it is no number.
pub open spec fn number_or(v: Option<JsonView>, default: Num) -> Option<Num> {
    match v {
        None => Some(default),
        Some(x) => x.as_number(),
    }
}

/// A number that must be given.
pub open spec fn number_at(v: Option<JsonView>) -> Option<Num> {
    match v {
        None => None,
        Some(x) => x.as_number(),
    }
}

/// `n` numbers that must be given.
pub open spec fn numbers_at(v: Option<JsonView>, n: nat) -> Option<Seq<Num>> {
    match v {
        None => None,
        Some(x) => if renderer::numbers(x, n) {
            Some(renderer::numbers_of(x))
        } else {
            None
        },
    }
}

/// `n` numbers that may be missing or null; an error where they are neither.
pub open spec fn numbers_maybe(v: Option<JsonView>, n: nat) -> Option<Option<Seq<Num>>> {
    match v {
        None => Some(None),
        Some(JsonView::Null) => Some(None),
        Some(x) => if renderer::numbers(x, n) {
            Some(Some(renderer::numbers_of(x)))
        } else {
            None
        },
    }
}

/// A number that may be missing or null; an error where it is neither.
pub open spec fn number_maybe(v: Option<JsonView>) -> Option<Option<Num>> {
    match v {
        None => Some(None),
        Some(JsonView::Null) => Some(None),
        Some(JsonView::Number(n)) => Some(Some(n)),
        _ => None,
    }
}

/// The shape that a record describes. Its kind is the field `Bound Type`; a
/// record of unknown kind, or with a missing or ill-typed field, is no shape.
pub open spec fn shape_of(v: JsonView) -> Option<ShapeView> {
    let kind = match field(v, "Bound Type"@, 0) {
        Some(k) => k.as_str(),
        None => None,
    };
    let active = flag(field(v, "Bone Active"@, 1));
    let translate = numbers_at(field(v, "WorldTranslate"@, 2), 3);
    let rotation = numbers_at(field(v, "WorldRotationQ"@, 3), 4);
    if active is None || translate is None || rotation is None {
        None
    } else if kind == Some("Capsule"@) {
        let radius = number_at(field(v, "Radius"@, 4));
        let length = number_at(field(v, "Capsule Length"@, 5));
        let friction = number_or(field(v, "Friction"@, 6), default_friction());
        let elasticity = number_or(field(v, "Elasticity"@, 7), default_elasticity());
        if radius is None || length is None || friction is None || elasticity is None || !is_record(
            v,
            8,
        ) {
            None
        } else {
            Some(
                ShapeView::Capsule {
                    bone_active: active->0,
                    world_translate: translate->0,
                    world_rotation_q: rotation->0,
                    radius: radius->0,
                    capsule_length: length->0,
                    friction: friction->0,
                    elasticity: elasticity->0,
                },
            )
        }
    } else if kind == Some("Box"@) {
        let extents = numbers_maybe(field(v, "Extents"@, 4), 3);
        let friction = number_or(field(v, "Friction"@, 5), default_friction());
        let elasticity = number_or(field(v, "Elasticity"@, 6), default_elasticity());
        if extents is None || friction is None || elasticity is None || !is_record(v, 7) {
            None
        } else {
            Some(
                ShapeView::Box {
                    bone_active: active->0,
                    world_translate: translate->0,
                    world_rotation_q: rotation->0,
                    extents: extents->0,
                    friction: friction->0,
                    elasticity: elasticity->0,
                },
            )
        }
    } else {
        None
    }
}

/// The shapes among the members of an object, in order.
pub open spec fn shapes_of(members: Seq<(Seq<char>, JsonView)>) -> Seq<ShapeView>
    decreases members.len(),
{
    if members.len() == 0 {
        Seq::empty()
    } else {
        let init = shapes_of(members.drop_last());
        match shape_of(members.last().1) {
            Some(s) => init.push(s),
            None => init,
        }
    }
}

/// The bones among the members of the collision block, each with its shapes.
/// A bone whose entry is no object is left out.
pub open spec fn bones_of(members: Seq<(Seq<char>, JsonView)>) -> Seq<(Seq<char>, Seq<ShapeView>)>
    decreases members.len(),
{
    if members.len() == 0 {
        Seq::empty()
    } else {
        let init = bones_of(members.drop_last());
        match members.last().1 {
            JsonView::Object(shapes) => init.push((members.last().0, shapes_of(shapes))),
            _ => init,
        }
    }
}

/// A material value, or its default where it is missing or no number.
pub open spec fn pick(v: JsonView, key: Seq<char>, default: Num) -> Num {
    match v.get(key) {
        Some(x) => match x.as_number() {
            Some(n) => n,
            None => default,
        },
        None => default,
    }
}

/// The soft-body values of a material.
pub open spec fn soft_of(material: JsonView) -> Cc5SoftPhysics {
    Cc5SoftPhysics {
        mass: pick(material, "Mass"@, Num::Thousandths(1000)),
        damping: pick(material, "Damping"@, Num::Thousandths(500)),
        drag: pick(material, "Drag"@, Num::Thousandths(0)),
        stiffness_freq_hz: pick(material, "Stiffness Frequency"@, Num::Thousandths(10000)),
    }
}

/// The first member of an object.
pub open spec fn first_member(v: JsonView) -> Option<JsonView> {
    match v {
        JsonView::Object(members) => if members.len() > 0 {
            Some(members[0].1)
        } else {
            None
        },
        _ => None,
    }
}

/// The first material of a mesh.
pub open spec fn first_material(mesh: JsonView) -> Option<JsonView> {
    match mesh.get("Materials"@) {
        Some(m) => first_member(m),
        None => None,
    }
}

/// The meshes that have a material, each with its soft-body values.
pub open spec fn meshes_of(members: Seq<(Seq<char>, JsonView)>) -> Seq<(Seq<char>, Cc5SoftPhysics)>
    decreases members.len(),
{
    if members.len() == 0 {
        Seq::empty()
    } else {
        let init = meshes_of(members.drop_last());
        match first_material(members.last().1) {
            Some(material) => init.push((members.last().0, soft_of(material))),
            None => init,
        }
    }
}

/// The meshes of the soft-physics block.
pub open spec fn soft_block(physics: JsonView) -> Seq<(Seq<char>, Cc5SoftPhysics)> {
    match physics.get("Soft Physics"@) {
        Some(soft) => match soft.get("Meshes"@) {
            Some(JsonView::Object(members)) => meshes_of(members),
            _ => Seq::empty(),
        },
        None => Seq::empty(),
    }
}

/// The tuning that a record describes; none where a field is ill-typed.
pub open spec fn tuning_of(v: JsonView) -> Option<Cc5BreastTuning> {
    let mass = number_maybe(field(v, "Mass"@, 0));
    let stiffness = number_maybe(field(v, "Linear Stiffness"@, 1));
    let damping = number_maybe(field(v, "Linear Damping"@, 2));
    let limit = number_maybe(field(v, "Translation Limit"@, 3));
    if !is_record(v, 4) || mass is None || stiffness is None || damping is None || limit is None {
        None
    } else {
        Some(
            Cc5BreastTuning {
                mass: mass->0,
                linear_stiffness: stiffness->0,
                linear_damping: damping->0,
                translation_limit: limit->0,
            },
        )
    }
}

/// The `Physics` block: first member of the root, its `Object`, first member
/// of that, its `Physics`.
pub open spec fn physics_block(root: JsonView) -> Option<JsonView> {
    match first_member(root) {
        Some(avatar) => match avatar.get("Object"@) {
            Some(object) => match first_member(object) {
                Some(inner) => inner.get("Physics"@),
                None => None,
            },
            None => None,
        },
        None => None,
    }
}

/// The bones of the collision block; none where there is no such block.
pub open spec fn collision_block(physics: JsonView) -> Seq<(Seq<char>, Seq<ShapeView>)> {
    match physics.get("Collision Shapes"@) {
        Some(JsonView::Object(bones)) => bones_of(bones),
        _ => Seq::empty(),
    }
}

/// The tuning block.
pub open spec fn tuning_block(physics: JsonView) -> Option<Cc5BreastTuning> {
    match physics.get("Breast Tuning"@) {
        Some(t) => tuning_of(t),
        None => None,
    }
}

/// What a document says. The blocks are read independently of each other.
pub open spec fn physics_of(root: JsonView) -> PhysicsView {
    match physics_block(root) {
        None => PhysicsView::empty(),
        Some(physics) => PhysicsView {
            by_bone: collision_block(physics),
            soft: soft_block(physics),
            breast_tuning: tuning_block(physics),
        },
    }
}

/// A field of a record: by name in an object, by position in an array.
pub fn read_field<'a>(v: &'a Json, key: &str, at: usize) -> (r: Option<&'a Json>)
    ensures
        r is Some == field(v@, key@, at as nat) is Some,
        r matches Some(x) ==> x@ == field(v@, key@, at as nat)->0,
{
    match v {
        Json::Object(_) => v.get(key),
        Json::Array(items) => if at < items.len() {
            Some(&items[at])
        } else {
            None
        },
        _ => None,
    }
}

/// Whether `v` can stand for a record of `n` fields.
pub fn record(v: &Json, n: usize) -> (r: bool)
    ensures
        r == is_record(v@, n as nat),
{
    match v {
        Json::Object(_) => true,
        Json::Array(items) => items.len() <= n,
        _ => false,
    }
}

fn read_flag(v: Option<&Json>) -> (r: Option<bool>)
    ensures
        r == flag(
            match v {
                Some(x) => Some(x@),
                None => None,
            },
        ),
{
    match v {
        None => Some(default_true()),
        Some(x) => x.as_bool(),
    }
}

/// A number that has a default.
pub fn read_number_or(v: Option<&Json>, default: Num) -> (r: Option<Num>)
    ensures
        r == number_or(
            match v {
                Some(x) => Some(x@),
                None => None,
            },
            default,
        ),
{
    match v {
        None => Some(default),
        Some(x) => x.as_number(),
    }
}

/// A number that must be given.
pub fn read_number(v: Option<&Json>) -> (r: Option<Num>)
    ensures
        r == number_at(
            match v {
                Some(x) => Some(x@),
                None => None,
            },
        ),
{
    match v {
        None => None,
        Some(x) => x.as_number(),
    }
}

fn read_three(v: Option<&Json>) -> (r: Option<[Num; 3]>)
    ensures
        r is Some == numbers_at(
            match v {
                Some(x) => Some(x@),
                None => None,
            },
            3,
        ) is Some,
        r matches Some(a) ==> Some(a@) == numbers_at(
            match v {
                Some(x) => Some(x@),
                None => None,
            },
            3,
        ),
{
    match v {
        None => None,
        Some(x) => renderer::three_numbers(x),
    }
}

fn read_four(v: Option<&Json>) -> (r: Option<[Num; 4]>)
    ensures
        r is Some == numbers_at(
            match v {
                Some(x) => Some(x@),
                None => None,
            },
            4,
        ) is Some,
        r matches Some(a) ==> Some(a@) == numbers_at(
            match v {
                Some(x) => Some(x@),
                None => None,
            },
            4,
        ),
{
    match v {
        None => None,
        Some(x) => renderer::four_numbers(x),
    }
}

/// Three numbers that may be missing or null; `None` where they are neither.
pub fn read_three_maybe(v: Option<&Json>) -> (r: Option<Option<[Num; 3]>>)
    ensures
        match r {
            Some(Some(a)) => numbers_maybe(
                match v {
                    Some(x) => Some(x@),
                    None => None,
                },
                3,
            ) == Some(Some(a@)),
            Some(None) => numbers_maybe(
                match v {
                    Some(x) => Some(x@),
                    None => None,
                },
                3,
            ) == Some(None::<Seq<Num>>),
            None => numbers_maybe(
                match v {
                    Some(x) => Some(x@),
                    None => None,
                },
                3,
            ) is None,
        },
{
    match v {
        None => Some(None),
        Some(Json::Null) => Some(None),
        Some(x) => match renderer::three_numbers(x) {
            Some(a) => Some(Some(a)),
            None => None,
        },
    }
}

fn read_number_maybe(v: Option<&Json>) -> (r: Option<Option<Num>>)
    ensures
        r == number_maybe(
            match v {
                Some(x) => Some(x@),
                None => None,
            },
        ),
{
    match v {
        None => Some(None),
        Some(Json::Null) => Some(None),
        Some(Json::Number(n)) => Some(Some(*n)),
        _ => None,
    }
}

/// Reads one collision shape.
pub fn read_shape(v: &Json) -> (r: Option<Cc5Shape>)
    ensures
        r is Some == shape_of(v@) is Some,
        r matches Some(s) ==> Some(s@) == shape_of(v@),
{
    let bone_active = match read_flag(read_field(v, "Bone Active", 1)) {
        Some(b) => b,
        None => return None,
    };
    let world_translate = match read_three(read_field(v, "WorldTranslate", 2)) {
        Some(a) => a,
        None => return None,
    };
    let world_rotation_q = match read_four(read_field(v, "WorldRotationQ", 3)) {
        Some(a) => a,
        None => return None,
    };
    let kind: &str = match read_field(v, "Bound Type", 0) {
        Some(k) => match k.as_str() {
            Some(s) => s,
            None => return None,
        },
        None => return None,
    };
    if text::same(kind, "Capsule") {
        let radius = match read_number(read_field(v, "Radius", 4)) {
            Some(n) => n,
            None => return None,
        };
        let capsule_length = match read_number(read_field(v, "Capsule Length", 5)) {
            Some(n) => n,
            None => return None,
        };
        let friction = match read_number_or(read_field(v, "Friction", 6), Num::Thousandths(400)) {
            Some(n) => n,
            None => return None,
        };
        let elasticity = match read_number_or(
            read_field(v, "Elasticity", 7),
            Num::Thousandths(100),
        ) {
            Some(n) => n,
            None => return None,
        };
        if !record(v, 8) {
            return None;
        }
        Some(
            Cc5Shape::Capsule {
                bone_active,
                world_translate,
                world_rotation_q,
                radius,
                capsule_length,
                friction,
                elasticity,
            },
        )
    } else if text::same(kind, "Box") {
        let extents = match read_three_maybe(read_field(v, "Extents", 4)) {
            Some(e) => e,
            None => return None,
        };
        let friction = match read_number_or(read_field(v, "Friction", 5), Num::Thousandths(400)) {
            Some(n) => n,
            None => return None,
        };
        let elasticity = match read_number_or(
            read_field(v, "Elasticity", 6),
            Num::Thousandths(100),
        ) {
            Some(n) => n,
            None => return None,
        };
        if !record(v, 7) {
            return None;
        }
        Some(
            Cc5Shape::Box {
                bone_active,
                world_translate,
                world_rotation_q,
                extents,
                friction,
                elasticity,
            },
        )
    } else {
        None
    }
}

/// The shapes of one bone, in order.
fn read_shapes(v: &Json) -> (r: Option<Vec<Cc5Shape>>)
    ensures
        r is Some == v@ is Object,
        r matches Some(shapes) ==> shapes_view(shapes@) == shapes_of(v@->Object_0),
{
    let members = match v.as_object() {
        Some(m) => m,
        None => return None,
    };
    let ghost all = v@->Object_0;
    let mut shapes: Vec<Cc5Shape> = Vec::new();
    let mut i: usize = 0;
    assert(shapes_view(shapes@) =~= shapes_of(all.take(0)));
    while i < members.len()
        invariant
            i <= members.len(),
            all.len() == members@.len(),
            forall|k: int|
                #![trigger members@[k]]
                0 <= k < members@.len() ==> (members@[k].0@, members@[k].1@) == all[k],
            shapes_view(shapes@) == shapes_of(all.take(i as int)),
        decreases members.len() - i,
    {
        let ghost before = shapes@;
        proof {
            assert(all.take(i + 1).drop_last() =~= all.take(i as int));
            assert((members@[i as int].0@, members@[i as int].1@) == all[i as int]);
        }
        match read_shape(&members[i].1) {
            Some(s) => {
                shapes.push(s);
                assert(shapes_view(shapes@) =~= shapes_view(before).push(s@));
            },
            None => {},
        }
        i = i + 1;
    }
    assert(all.take(all.len() as int) =~= all);
    Some(shapes)
}

/// The bones of the collision block.
fn read_bones(members: &Vec<(String, Json)>, Ghost(all): Ghost<Seq<(Seq<char>, JsonView)>>) -> (r:
    Vec<(String, Vec<Cc5Shape>)>)
    requires
        all.len() == members@.len(),
        forall|k: int|
            #![trigger members@[k]]
            0 <= k < members@.len() ==> (members@[k].0@, members@[k].1@) == all[k],
    ensures
        r@.map_values(|b: (String, Vec<Cc5Shape>)| (b.0@, shapes_view(b.1@))) == bones_of(all),
{
    let ghost view = |b: (String, Vec<Cc5Shape>)| (b.0@, shapes_view(b.1@));
    let mut bones: Vec<(String, Vec<Cc5Shape>)> = Vec::new();
    let mut i: usize = 0;
    assert(bones@.map_values(view) =~= bones_of(all.take(0)));
    while i < members.len()
        invariant
            i <= members.len(),
            all.len() == members@.len(),
            view == (|b: (String, Vec<Cc5Shape>)| (b.0@, shapes_view(b.1@))),
            forall|k: int|
                #![trigger members@[k]]
                0 <= k < members@.len() ==> (members@[k].0@, members@[k].1@) == all[k],
            bones@.map_values(view) == bones_of(all.take(i as int)),
        decreases members.len() - i,
    {
        let ghost before = bones@;
        proof {
            assert(all.take(i + 1).drop_last() =~= all.take(i as int));
            assert((members@[i as int].0@, members@[i as int].1@) == all[i as int]);
        }
        match read_shapes(&members[i].1) {
            Some(shapes) => {
                let bone: (String, Vec<Cc5Shape>) = (members[i].0.clone(), shapes);
                bones.push(bone);
                assert(bones@.map_values(view) =~= before.map_values(view).push(view(bone)));
            },
            None => {},
        }
        i = i + 1;
    }
    assert(all.take(all.len() as int) =~= all);
    bones
}

/// A material value, or its default.
fn read_pick(v: &Json, key: &str, default: Num) -> (r: Num)
    ensures
        r == pick(v@, key@, default),
{
    match v.get(key) {
        Some(x) => match x.as_number() {
            Some(n) => n,
            None => default,
        },
        None => default,
    }
}

/// The first member of an object.
fn read_first(v: &Json) -> (r: Option<&Json>)
    ensures
        r is Some == first_member(v@) is Some,
        r matches Some(x) ==> x@ == first_member(v@)->0,
{
    match v.as_object() {
        Some(members) => if members.len() > 0 {
            assert((members@[0].0@, members@[0].1@) == (v@.as_object()->0)[0]);
            Some(&members[0].1)
        } else {
            None
        },
        None => None,
    }
}

/// The meshes of the soft-physics block.
fn read_meshes(
    members: &Vec<(String, Json)>,
    Ghost(all): Ghost<Seq<(Seq<char>, JsonView)>>,
) -> (r: Vec<(String, Cc5SoftPhysics)>)
    requires
        all.len() == members@.len(),
        forall|k: int|
            #![trigger members@[k]]
            0 <= k < members@.len() ==> (members@[k].0@, members@[k].1@) == all[k],
    ensures
        r@.map_values(|m: (String, Cc5SoftPhysics)| (m.0@, m.1)) == meshes_of(all),
{
    let ghost view = |m: (String, Cc5SoftPhysics)| (m.0@, m.1);
    let mut meshes: Vec<(String, Cc5SoftPhysics)> = Vec::new();
    let mut i: usize = 0;
    assert(meshes@.map_values(view) =~= meshes_of(all.take(0)));
    while i < members.len()
        invariant
            i <= members.len(),
            all.len() == members@.len(),
            view == (|m: (String, Cc5SoftPhysics)| (m.0@, m.1)),
            forall|k: int|
                #![trigger members@[k]]
                0 <= k < members@.len() ==> (members@[k].0@, members@[k].1@) == all[k],
            meshes@.map_values(view) == meshes_of(all.take(i as int)),
        decreases members.len() - i,
    {
        let ghost before = meshes@;
        proof {
            assert(all.take(i + 1).drop_last() =~= all.take(i as int));
            assert((members@[i as int].0@, members@[i as int].1@) == all[i as int]);
        }
        let material = match members[i].1.get("Materials") {
            Some(m) => read_first(m),
            None => None,
        };
        match material {
            Some(m) => {
                let soft = Cc5SoftPhysics {
                    mass: read_pick(m, "Mass", Num::Thousandths(1000)),
                    damping: read_pick(m, "Damping", Num::Thousandths(500)),
                    drag: read_pick(m, "Drag", Num::Thousandths(0)),
                    stiffness_freq_hz: read_pick(
                        m,
                        "Stiffness Frequency",
                        Num::Thousandths(10000),
                    ),
                };
                let mesh: (String, Cc5SoftPhysics) = (members[i].0.clone(), soft);
                meshes.push(mesh);
                assert(meshes@.map_values(view) =~= before.map_values(view).push(view(mesh)));
            },
            None => {},
        }
        i = i + 1;
    }
    assert(all.take(all.len() as int) =~= all);
    meshes
}

/// Reads a tuning block.
pub fn read_tuning(v: &Json) -> (r: Option<Cc5BreastTuning>)
    ensures
        r == tuning_of(v@),
{
    if !record(v, 4) {
        return None;
    }
    match (
        read_number_maybe(read_field(v, "Mass", 0)),
        read_number_maybe(read_field(v, "Linear Stiffness", 1)),
        read_number_maybe(read_field(v, "Linear Damping", 2)),
        read_number_maybe(read_field(v, "Translation Limit", 3)),
    ) {
        (Some(mass), Some(linear_stiffness), Some(linear_damping), Some(translation_limit)) => Some(
            Cc5BreastTuning { mass, linear_stiffness, linear_damping, translation_limit },
        ),
        _ => None,
    }
}

/// The `Physics` block of a document.
fn read_physics_block(root: &Json) -> (r: Option<&Json>)
    ensures
        r is Some == physics_block(root@) is Some,
        r matches Some(x) ==> x@ == physics_block(root@)->0,
{
    match read_first(root) {
        Some(avatar) => match avatar.get("Object") {
            Some(object) => match read_first(object) {
                Some(inner) => inner.get("Physics"),
                None => None,
            },
            None => None,
        },
        None => None,
    }
}

impl Default for Cc5Physics {
    fn default() -> (r: Self)
        ensures
            r@ == PhysicsView::empty(),
    {
        let r = Cc5Physics {
            by_bone: Vec::new(),
            soft_physics_by_mesh: Vec::new(),
            breast_tuning: None,
        };
        assert(r@ =~= PhysicsView::empty());
        r
    }
}

/// Reads the physics data out of a document.
pub fn read_physics(root: &Json) -> (r: Cc5Physics)
    ensures
        r@ == physics_of(root@),
{
    let physics = match read_physics_block(root) {
        Some(p) => p,
        None => return Cc5Physics::default(),
    };
    let by_bone: Vec<(String, Vec<Cc5Shape>)> = match physics.get("Collision Shapes") {
        Some(shapes) => match shapes.as_object() {
            Some(bones) => read_bones(bones, Ghost(shapes@->Object_0)),
            None => Vec::new(),
        },
        None => Vec::new(),
    };
    let soft_physics_by_mesh: Vec<(String, Cc5SoftPhysics)> = match physics.get("Soft Physics") {
        Some(soft) => match soft.get("Meshes") {
            Some(meshes) => match meshes.as_object() {
                Some(members) => read_meshes(members, Ghost(meshes@->Object_0)),
                None => Vec::new(),
            },
            None => Vec::new(),
        },
        None => Vec::new(),
    };
    let breast_tuning = match physics.get("Breast Tuning") {
        Some(t) => read_tuning(t),
        None => None,
    };
    let r = Cc5Physics { by_bone, soft_physics_by_mesh, breast_tuning };
    assert(r@.by_bone =~= collision_block(physics@));
    assert(r@.soft =~= soft_block(physics@));
    r
}

/// Reads the physics file of an avatar. `source` is the text of the file, or
/// `None` where there is no such file.
pub fn load(source: Option<&str>) -> (r: Result<Option<Cc5Physics>, serde_json::Error>)
    ensures
        source is None ==> r == Ok::<Option<Cc5Physics>, serde_json::Error>(None),
        source matches Some(s) ==> match json::parsed(s@) {
            Some(root) => r matches Ok(Some(p)) && p@ == physics_of(root),
            None => r is Err,
        },
{
    match source {
        None => Ok(None),
        Some(s) => match Json::parse(s) {
            Ok(root) => Ok(Some(read_physics(&root))),
            Err(e) => Err(e),
        },
    }
}

/// What one block says does not depend on the others being there: documents whose
/// `Physics` agree on a block agree on what is read from it.
pub proof fn law_blocks_are_independent(a: JsonView, b: JsonView)
    requires
        physics_block(a) is Some,
        physics_block(b) is Some,
    ensures
        ({
            let x = physics_block(a)->0;
            let y = physics_block(b)->0;
            &&& x.get("Collision Shapes"@) == y.get("Collision Shapes"@) ==> physics_of(a).by_bone
                == physics_of(b).by_bone
            &&& x.get("Soft Physics"@) == y.get("Soft Physics"@) ==> physics_of(a).soft
                == physics_of(b).soft
            &&& x.get("Breast Tuning"@) == y.get("Breast Tuning"@) ==> physics_of(
                a,
            ).breast_tuning == physics_of(b).breast_tuning
        }),
{
}

} // verus!
