//! The physics sidecar: a hand-written file next to an avatar that overrides
//! colliders and secondary motion. Every section is optional.
use crate::cc5_json;
use crate::json;
use crate::json::{Json, JsonView, Num};
use crate::text;
use vstd::prelude::*;
use vstd::string::*;

verus! {

/// A collider that replaces the one of a bone.
#[derive(Clone, Copy, Debug, PartialEq, Eq, Structural)]
pub enum BodyColliderOverride {
    Capsule { radius: Num, half_height: Num },
    Sphere { radius: Num },
}

/// Values for the chain that starts at one bone.
#[derive(Debug)]
pub struct JiggleChainRaw {
    pub root_bone: String,
    pub stiffness: Num,
    pub damping: Num,
    pub mass_per_link: Num,
    pub collider_radius: Num,
}

/// The section on secondary motion.
#[derive(Debug)]
pub struct SecondaryMotionRaw {
    pub auto_detect_patterns: Vec<String>,
    pub chains_override: Vec<JiggleChainRaw>,
}

/// The section on the play volume.
#[derive(Clone, Copy, Debug, PartialEq, Eq, Structural)]
pub struct PlayVolumeRaw {
    pub half_extents_xz: Num,
    pub ceiling_y: Num,
}

/// A whole sidecar. Of an entry in `body_colliders_override`, `None` disables
/// the bone's collider.
#[derive(Debug)]
pub struct SidecarRaw {
    pub version: u32,
    pub palm_offset_local: Option<[Num; 3]>,
    pub body_colliders_override: Vec<(String, Option<BodyColliderOverride>)>,
    pub secondary_motion: Option<SecondaryMotionRaw>,
    pub play_volume: Option<PlayVolumeRaw>,
}

/// Why a sidecar cannot be used.
#[derive(Debug)]
pub enum SidecarError {
    /// The text is no JSON.
    Syntax(serde_json::Error),
    /// A field is missing or has the wrong type.
    IllTyped,
    /// The version is not one.
    UnsupportedVersion(u32),
}

impl SidecarError {
    /// What went wrong, in words.
    pub fn message(&self) -> (r: &'static str)
        ensures
            r@ == match *self {
                SidecarError::Syntax(_) => "parse error"@,
                SidecarError::IllTyped => "invalid or missing field"@,
                SidecarError::UnsupportedVersion(_) => "unsupported version (expected 1)"@,
            },
    {
        match self {
            SidecarError::Syntax(_) => "parse error",
            SidecarError::IllTyped => "invalid or missing field",
            SidecarError::UnsupportedVersion(_) => "unsupported version (expected 1)",
        }
    }
}

/// A chain, as plain mathematics.
#[verifier::ext_equal]
pub struct ChainView {
    pub root_bone: Seq<char>,
    pub stiffness: Num,
    pub damping: Num,
    pub mass_per_link: Num,
    pub collider_radius: Num,
}

/// The section on secondary motion, as plain mathematics.
#[verifier::ext_equal]
pub struct MotionView {
    pub patterns: Seq<Seq<char>>,
    pub chains: Seq<ChainView>,
}

/// A whole sidecar, as plain mathematics.
#[verifier::ext_equal]
pub struct SidecarView {
    pub version: u32,
    pub palm_offset_local: Option<Seq<Num>>,
    pub colliders: Seq<(Seq<char>, Option<BodyColliderOverride>)>,
    pub secondary_motion: Option<MotionView>,
    pub play_volume: Option<PlayVolumeRaw>,
}

impl View for JiggleChainRaw {
    type V = ChainView;

    open spec fn view(&self) -> ChainView {
        ChainView {
            root_bone: self.root_bone@,
            stiffness: self.stiffness,
            damping: self.damping,
            mass_per_link: self.mass_per_link,
            collider_radius: self.collider_radius,
        }
    }
}

/// The contents of a list of strings.
pub open spec fn strings_view(v: Seq<String>) -> Seq<Seq<char>> {
    v.map_values(|s: String| s@)
}

/// The views of a list of chains.
pub open spec fn chains_view(v: Seq<JiggleChainRaw>) -> Seq<ChainView> {
    v.map_values(|c: JiggleChainRaw| c@)
}

/// The contents of a list of collider overrides.
pub open spec fn colliders_view(v: Seq<(String, Option<BodyColliderOverride>)>) -> Seq<
    (Seq<char>, Option<BodyColliderOverride>),
> {
    v.map_values(|c: (String, Option<BodyColliderOverride>)| (c.0@, c.1))
}

impl View for SecondaryMotionRaw {
    type V = MotionView;

    open spec fn view(&self) -> MotionView {
        MotionView {
            patterns: strings_view(self.auto_detect_patterns@),
            chains: chains_view(self.chains_override@),
        }
    }
}

impl View for SidecarRaw {
    type V = SidecarView;

    open spec fn view(&self) -> SidecarView {
        SidecarView {
            version: self.version,
            palm_offset_local: match self.palm_offset_local {
                Some(a) => Some(a@),
                None => None,
            },
            colliders: colliders_view(self.body_colliders_override@),
            secondary_motion: match self.secondary_motion {
                Some(m) => Some(m@),
                None => None,
            },
            play_volume: self.play_volume,
        }
    }
}

/// Name patterns of moving bones that a section on secondary motion without
/// patterns of its own stands for.
pub open spec fn default_patterns() -> Seq<Seq<char>> {
    seq!["^CC_Base_Hair_.*"@, ".*Breast.*"@, "^Skirt_.*"@, "^CC_Base_Tongue.*"@]
}

/// Name patterns of moving bones for a sidecar that names none.
pub fn default_jiggle_patterns() -> (r: Vec<String>)
    ensures
        strings_view(r@) == default_patterns(),
{
    let mut r: Vec<String> = Vec::new();
    r.push("^CC_Base_Hair_.*".to_owned());
    r.push(".*Breast.*".to_owned());
    r.push("^Skirt_.*".to_owned());
    r.push("^CC_Base_Tongue.*".to_owned());
    assert(strings_view(r@) =~= default_patterns());
    r
}

/// A 32-bit natural number; zero where it is missing.
pub open spec fn version_of(v: Option<JsonView>) -> Option<u32> {
    match v {
        None => Some(0),
        Some(JsonView::Number(Num::Unsigned(n))) => if n <= u32::MAX {
            Some(n as u32)
        } else {
            None
        },
        _ => None,
    }
}

/// The collider that a record describes: its kind is the field `shape`.
pub open spec fn collider_of(v: JsonView) -> Option<BodyColliderOverride> {
    let kind = match cc5_json::field(v, "shape"@, 0) {
        Some(k) => k.as_str(),
        None => None,
    };
    let radius = cc5_json::number_at(cc5_json::field(v, "radius"@, 1));
    if radius is None {
        None
    } else if kind == Some("capsule"@) {
        match cc5_json::number_at(cc5_json::field(v, "half_height"@, 2)) {
            Some(half_height) => if cc5_json::is_record(v, 3) {
                Some(BodyColliderOverride::Capsule { radius: radius->0, half_height })
            } else {
                None
            },
            None => None,
        }
    } else if kind == Some("sphere"@) && cc5_json::is_record(v, 2) {
        Some(BodyColliderOverride::Sphere { radius: radius->0 })
    } else {
        None
    }
}

/// The entry of one bone: null disables, anything else must be a collider.
pub open spec fn entry_of(v: JsonView) -> Option<Option<BodyColliderOverride>> {
    if v is Null {
        Some(None)
    } else {
        match collider_of(v) {
            Some(c) => Some(Some(c)),
            None => None,
        }
    }
}

/// All entries, in order; an error where one is ill-formed.
pub open spec fn entries_of(members: Seq<(Seq<char>, JsonView)>) -> Option<
    Seq<(Seq<char>, Option<BodyColliderOverride>)>,
>
    decreases members.len(),
{
    if members.len() == 0 {
        Some(Seq::empty())
    } else {
        match (entries_of(members.drop_last()), entry_of(members.last().1)) {
            (Some(init), Some(e)) => Some(init.push((members.last().0, e))),
            _ => None,
        }
    }
}

/// The section of collider overrides; empty where it is missing.
pub open spec fn colliders_of(v: Option<JsonView>) -> Option<
    Seq<(Seq<char>, Option<BodyColliderOverride>)>,
> {
    match v {
        None => Some(Seq::empty()),
        Some(JsonView::Object(members)) => entries_of(members),
        _ => None,
    }
}

/// Strings of an array, in order; an error where one is no string.
pub open spec fn strings_of(items: Seq<JsonView>) -> Option<Seq<Seq<char>>>
    decreases items.len(),
{
    if items.len() == 0 {
        Some(Seq::empty())
    } else {
        match (strings_of(items.drop_last()), items.last().as_str()) {
            (Some(init), Some(s)) => Some(init.push(s)),
            _ => None,
        }
    }
}

/// The patterns of a section; the default ones where they are missing.
pub open spec fn patterns_of(v: Option<JsonView>) -> Option<Seq<Seq<char>>> {
    match v {
        None => Some(default_patterns()),
        Some(JsonView::Array(items)) => strings_of(items),
        _ => None,
    }
}

/// The chain that a record describes.
pub open spec fn chain_of(v: JsonView) -> Option<ChainView> {
    let root = match cc5_json::field(v, "root_bone"@, 0) {
        Some(r) => r.as_str(),
        None => None,
    };
    let stiffness = cc5_json::number_or(
        cc5_json::field(v, "stiffness"@, 1),
        Num::Thousandths(30000),
    );
    let damping = cc5_json::number_or(cc5_json::field(v, "damping"@, 2), Num::Thousandths(2500));
    let mass = cc5_json::number_or(cc5_json::field(v, "mass_per_link"@, 3), Num::Thousandths(50));
    let radius = cc5_json::number_or(
        cc5_json::field(v, "collider_radius"@, 4),
        Num::Thousandths(15),
    );
    if root is None || stiffness is None || damping is None || mass is None || radius is None
        || !cc5_json::is_record(v, 5) {
        None
    } else {
        Some(
            ChainView {
                root_bone: root->0,
                stiffness: stiffness->0,
                damping: damping->0,
                mass_per_link: mass->0,
                collider_radius: radius->0,
            },
        )
    }
}

/// The chains of an array, in order; an error where one is ill-formed.
pub open spec fn chains_of(items: Seq<JsonView>) -> Option<Seq<ChainView>>
    decreases items.len(),
{
    if items.len() == 0 {
        Some(Seq::empty())
    } else {
        match (chains_of(items.drop_last()), chain_of(items.last())) {
            (Some(init), Some(c)) => Some(init.push(c)),
            _ => None,
        }
    }
}

/// The section on secondary motion that a record describes.
pub open spec fn motion_of(v: JsonView) -> Option<MotionView> {
    let patterns = patterns_of(cc5_json::field(v, "auto_detect_patterns"@, 0));
    let chains = match cc5_json::field(v, "chains_override"@, 1) {
        None => Some(Seq::<ChainView>::empty()),
        Some(JsonView::Array(items)) => chains_of(items),
        _ => None,
    };
    if patterns is None || chains is None || !cc5_json::is_record(v, 2) {
        None
    } else {
        Some(MotionView { patterns: patterns->0, chains: chains->0 })
    }
}

/// A section that may be missing or null.
pub open spec fn motion_maybe(v: Option<JsonView>) -> Option<Option<MotionView>> {
    match v {
        None => Some(None),
        Some(JsonView::Null) => Some(None),
        Some(x) => match motion_of(x) {
            Some(m) => Some(Some(m)),
            None => None,
        },
    }
}

/// A section that may be missing or null.
pub open spec fn volume_maybe(v: Option<JsonView>) -> Option<Option<PlayVolumeRaw>> {
    match v {
        None => Some(None),
        Some(JsonView::Null) => Some(None),
        Some(x) => match (
            cc5_json::number_at(cc5_json::field(x, "half_extents_xz"@, 0)),
            cc5_json::number_at(cc5_json::field(x, "ceiling_y"@, 1)),
        ) {
            (Some(half_extents_xz), Some(ceiling_y)) => if cc5_json::is_record(x, 2) {
                Some(Some(PlayVolumeRaw { half_extents_xz, ceiling_y }))
            } else {
                None
            },
            _ => None,
        },
    }
}

/// What a document says; none where a field is ill-formed.
pub open spec fn sidecar_of(v: JsonView) -> Option<SidecarView> {
    let version = version_of(cc5_json::field(v, "version"@, 0));
    let palm = cc5_json::numbers_maybe(cc5_json::field(v, "palm_offset_local"@, 1), 3);
    let colliders = colliders_of(cc5_json::field(v, "body_colliders_override"@, 2));
    let motion = motion_maybe(cc5_json::field(v, "secondary_motion"@, 3));
    let volume = volume_maybe(cc5_json::field(v, "play_volume"@, 4));
    if version is None || palm is None || colliders is None || motion is None || volume is None
        || !cc5_json::is_record(v, 5) {
        None
    } else {
        Some(
            SidecarView {
                version: version->0,
                palm_offset_local: palm->0,
                colliders: colliders->0,
                secondary_motion: motion->0,
                play_volume: volume->0,
            },
        )
    }
}

fn read_version(v: Option<&Json>) -> (r: Option<u32>)
    ensures
        r == version_of(
            match v {
                Some(x) => Some(x@),
                None => None,
            },
        ),
{
    match v {
        None => Some(0),
        Some(Json::Number(Num::Unsigned(n))) => if *n <= u32::MAX as u64 {
            Some(*n as u32)
        } else {
            None
        },
        _ => None,
    }
}

fn read_collider(v: &Json) -> (r: Option<BodyColliderOverride>)
    ensures
        r == collider_of(v@),
{
    let radius = match cc5_json::read_number(cc5_json::read_field(v, "radius", 1)) {
        Some(n) => n,
        None => return None,
    };
    let kind: &str = match cc5_json::read_field(v, "shape", 0) {
        Some(k) => match k.as_str() {
            Some(s) => s,
            None => return None,
        },
        None => return None,
    };
    if text::same(kind, "capsule") {
        match cc5_json::read_number(cc5_json::read_field(v, "half_height", 2)) {
            Some(half_height) => if cc5_json::record(v, 3) {
                Some(BodyColliderOverride::Capsule { radius, half_height })
            } else {
                None
            },
            None => None,
        }
    } else if text::same(kind, "sphere") && cc5_json::record(v, 2) {
        Some(BodyColliderOverride::Sphere { radius })
    } else {
        None
    }
}

fn read_entry(v: &Json) -> (r: Option<Option<BodyColliderOverride>>)
    ensures
        r == entry_of(v@),
{
    match v {
        Json::Null => Some(None),
        _ => match read_collider(v) {
            Some(c) => Some(Some(c)),
            None => None,
        },
    }
}

/// A prefix that is ill-formed makes the whole ill-formed.
proof fn lemma_entries_prefix(members: Seq<(Seq<char>, JsonView)>, n: int)
    requires
        0 <= n <= members.len(),
        entries_of(members.take(n)) is None,
    ensures
        entries_of(members) is None,
    decreases members.len() - n,
{
    if n < members.len() {
        assert(members.take(n + 1).drop_last() =~= members.take(n));
        lemma_entries_prefix(members, n + 1);
    } else {
        assert(members.take(n) =~= members);
    }
}

fn read_entries(given: Option<&Json>) -> (r: Option<Vec<(String, Option<BodyColliderOverride>)>>)
    ensures
        r is Some == colliders_of(
            match given {
                Some(x) => Some(x@),
                None => None,
            },
        ) is Some,
        r matches Some(list) ==> Some(colliders_view(list@)) == colliders_of(
            match given {
                Some(x) => Some(x@),
                None => None,
            },
        ),
{
    let mut list: Vec<(String, Option<BodyColliderOverride>)> = Vec::new();
    let v: &Json = match given {
        None => {
            assert(colliders_view(list@) =~= Seq::empty());
            return Some(list);
        },
        Some(x) => x,
    };
    let members = match v.as_object() {
        Some(m) => m,
        None => return None,
    };
    let ghost all = v@->Object_0;
    let mut i: usize = 0;
    assert(colliders_view(list@) =~= Seq::empty());
    assert(all.take(0) =~= Seq::<(Seq<char>, JsonView)>::empty());
    while i < members.len()
        invariant
            i <= members.len(),
            given == Some(v),
            v@ == JsonView::Object(all),
            all.len() == members@.len(),
            forall|k: int|
                #![trigger members@[k]]
                0 <= k < members@.len() ==> (members@[k].0@, members@[k].1@) == all[k],
            entries_of(all.take(i as int)) == Some(colliders_view(list@)),
        decreases members.len() - i,
    {
        let ghost before = list@;
        proof {
            assert(all.take(i + 1).drop_last() =~= all.take(i as int));
            assert((members@[i as int].0@, members@[i as int].1@) == all[i as int]);
        }
        match read_entry(&members[i].1) {
            Some(e) => {
                list.push((members[i].0.clone(), e));
                assert(colliders_view(list@) =~= colliders_view(before).push(
                    (members@[i as int].0@, e),
                ));
            },
            None => {
                proof {
                    lemma_entries_prefix(all, i + 1);
                }
                return None;
            },
        }
        i = i + 1;
    }
    assert(all.take(all.len() as int) =~= all);
    Some(list)
}

/// A prefix that is ill-formed makes the whole ill-formed.
proof fn lemma_strings_prefix(items: Seq<JsonView>, n: int)
    requires
        0 <= n <= items.len(),
        strings_of(items.take(n)) is None,
    ensures
        strings_of(items) is None,
    decreases items.len() - n,
{
    if n < items.len() {
        assert(items.take(n + 1).drop_last() =~= items.take(n));
        lemma_strings_prefix(items, n + 1);
    } else {
        assert(items.take(n) =~= items);
    }
}

/// The strings of an array.
pub fn read_strings(v: &Json) -> (r: Option<Vec<String>>)
    ensures
        r is Some == (v@ is Array && strings_of(v@->Array_0) is Some),
        r matches Some(list) ==> Some(strings_view(list@)) == strings_of(v@->Array_0),
{
    let items = match v.as_array() {
        Some(a) => a,
        None => return None,
    };
    let ghost all = v@->Array_0;
    let mut list: Vec<String> = Vec::new();
    let mut i: usize = 0;
    assert(strings_view(list@) =~= Seq::empty());
    assert(all.take(0) =~= Seq::<JsonView>::empty());
    while i < items.len()
        invariant
            i <= items.len(),
            v@ == JsonView::Array(all),
            all.len() == items@.len(),
            forall|k: int| 0 <= k < items@.len() ==> (#[trigger] items@[k])@ == all[k],
            strings_of(all.take(i as int)) == Some(strings_view(list@)),
        decreases items.len() - i,
    {
        let ghost before = list@;
        proof {
            assert(all.take(i + 1).drop_last() =~= all.take(i as int));
            assert(items@[i as int]@ == all[i as int]);
        }
        match items[i].as_str() {
            Some(s) => {
                list.push(s.to_owned());
                assert(strings_view(list@) =~= strings_view(before).push(s@));
            },
            None => {
                proof {
                    lemma_strings_prefix(all, i + 1);
                }
                return None;
            },
        }
        i = i + 1;
    }
    assert(all.take(all.len() as int) =~= all);
    Some(list)
}

fn read_patterns(given: Option<&Json>) -> (r: Option<Vec<String>>)
    ensures
        r is Some == patterns_of(
            match given {
                Some(x) => Some(x@),
                None => None,
            },
        ) is Some,
        r matches Some(list) ==> Some(strings_view(list@)) == patterns_of(
            match given {
                Some(x) => Some(x@),
                None => None,
            },
        ),
{
    match given {
        None => Some(default_jiggle_patterns()),
        Some(x) => read_strings(x),
    }
}

fn read_chain(v: &Json) -> (r: Option<JiggleChainRaw>)
    ensures
        r is Some == chain_of(v@) is Some,
        r matches Some(c) ==> Some(c@) == chain_of(v@),
{
    let root_bone: String = match cc5_json::read_field(v, "root_bone", 0) {
        Some(r) => match r.as_str() {
            Some(s) => s.to_owned(),
            None => return None,
        },
        None => return None,
    };
    if !cc5_json::record(v, 5) {
        return None;
    }
    match (
        cc5_json::read_number_or(
            cc5_json::read_field(v, "stiffness", 1),
            Num::Thousandths(30000),
        ),
        cc5_json::read_number_or(cc5_json::read_field(v, "damping", 2), Num::Thousandths(2500)),
        cc5_json::read_number_or(cc5_json::read_field(v, "mass_per_link", 3), Num::Thousandths(50)),
        cc5_json::read_number_or(
            cc5_json::read_field(v, "collider_radius", 4),
            Num::Thousandths(15),
        ),
    ) {
        (Some(stiffness), Some(damping), Some(mass_per_link), Some(collider_radius)) => Some(
            JiggleChainRaw { root_bone, stiffness, damping, mass_per_link, collider_radius },
        ),
        _ => None,
    }
}

/// A prefix that is ill-formed makes the whole ill-formed.
proof fn lemma_chains_prefix(items: Seq<JsonView>, n: int)
    requires
        0 <= n <= items.len(),
        chains_of(items.take(n)) is None,
    ensures
        chains_of(items) is None,
    decreases items.len() - n,
{
    if n < items.len() {
        assert(items.take(n + 1).drop_last() =~= items.take(n));
        lemma_chains_prefix(items, n + 1);
    } else {
        assert(items.take(n) =~= items);
    }
}

fn read_chains(v: &Json) -> (r: Option<Vec<JiggleChainRaw>>)
    ensures
        r is Some == (v@ is Array && chains_of(v@->Array_0) is Some),
        r matches Some(list) ==> Some(chains_view(list@)) == chains_of(v@->Array_0),
{
    let items = match v.as_array() {
        Some(a) => a,
        None => return None,
    };
    let ghost all = v@->Array_0;
    let mut list: Vec<JiggleChainRaw> = Vec::new();
    let mut i: usize = 0;
    assert(chains_view(list@) =~= Seq::empty());
    assert(all.take(0) =~= Seq::<JsonView>::empty());
    while i < items.len()
        invariant
            i <= items.len(),
            v@ == JsonView::Array(all),
            all.len() == items@.len(),
            forall|k: int| 0 <= k < items@.len() ==> (#[trigger] items@[k])@ == all[k],
            chains_of(all.take(i as int)) == Some(chains_view(list@)),
        decreases items.len() - i,
    {
        let ghost before = list@;
        proof {
            assert(all.take(i + 1).drop_last() =~= all.take(i as int));
            assert(items@[i as int]@ == all[i as int]);
        }
        match read_chain(&items[i]) {
            Some(c) => {
                list.push(c);
                assert(chains_view(list@) =~= chains_view(before).push(c@));
            },
            None => {
                proof {
                    lemma_chains_prefix(all, i + 1);
                }
                return None;
            },
        }
        i = i + 1;
    }
    assert(all.take(all.len() as int) =~= all);
    Some(list)
}

fn read_motion(v: &Json) -> (r: Option<SecondaryMotionRaw>)
    ensures
        r is Some == motion_of(v@) is Some,
        r matches Some(m) ==> Some(m@) == motion_of(v@),
{
    if !cc5_json::record(v, 2) {
        return None;
    }
    let auto_detect_patterns = match read_patterns(
        cc5_json::read_field(v, "auto_detect_patterns", 0),
    ) {
        Some(p) => p,
        None => return None,
    };
    let chains_override: Vec<JiggleChainRaw> = match cc5_json::read_field(
        v,
        "chains_override",
        1,
    ) {
        None => Vec::new(),
        Some(c) => match read_chains(c) {
            Some(list) => list,
            None => return None,
        },
    };
    let m = SecondaryMotionRaw { auto_detect_patterns, chains_override };
    assert(cc5_json::field(v@, "chains_override"@, 1) is None ==> m@.chains =~= Seq::empty());
    Some(m)
}

fn read_volume(v: Option<&Json>) -> (r: Option<Option<PlayVolumeRaw>>)
    ensures
        r == volume_maybe(
            match v {
                Some(x) => Some(x@),
                None => None,
            },
        ),
{
    match v {
        None => Some(None),
        Some(Json::Null) => Some(None),
        Some(x) => match (
            cc5_json::read_number(cc5_json::read_field(x, "half_extents_xz", 0)),
            cc5_json::read_number(cc5_json::read_field(x, "ceiling_y", 1)),
        ) {
            (Some(half_extents_xz), Some(ceiling_y)) => if cc5_json::record(x, 2) {
                Some(Some(PlayVolumeRaw { half_extents_xz, ceiling_y }))
            } else {
                None
            },
            _ => None,
        },
    }
}

/// Reads a sidecar of any version out of a document.
pub fn read_sidecar(v: &Json) -> (r: Option<SidecarRaw>)
    ensures
        r is Some == sidecar_of(v@) is Some,
        r matches Some(s) ==> Some(s@) == sidecar_of(v@),
{
    if !cc5_json::record(v, 5) {
        return None;
    }
    let version = match read_version(cc5_json::read_field(v, "version", 0)) {
        Some(n) => n,
        None => return None,
    };
    let palm_offset_local = match cc5_json::read_three_maybe(
        cc5_json::read_field(v, "palm_offset_local", 1),
    ) {
        Some(p) => p,
        None => return None,
    };
    let body_colliders_override = match read_entries(
        cc5_json::read_field(v, "body_colliders_override", 2),
    ) {
        Some(c) => c,
        None => return None,
    };
    let secondary_motion: Option<SecondaryMotionRaw> = match cc5_json::read_field(
        v,
        "secondary_motion",
        3,
    ) {
        None => None,
        Some(Json::Null) => None,
        Some(x) => match read_motion(x) {
            Some(m) => Some(m),
            None => return None,
        },
    };
    let play_volume = match read_volume(cc5_json::read_field(v, "play_volume", 4)) {
        Some(p) => p,
        None => return None,
    };
    Some(
        SidecarRaw {
            version,
            palm_offset_local,
            body_colliders_override,
            secondary_motion,
            play_volume,
        },
    )
}

/// Reads the sidecar of an avatar. `source` is the text of the file, or `None`
/// where there is no such file. Only version one is accepted.
pub fn load(source: Option<&str>) -> (r: Result<Option<SidecarRaw>, SidecarError>)
    ensures
        source is None ==> r == Ok::<Option<SidecarRaw>, SidecarError>(None),
        source matches Some(s) ==> match json::parsed(s@) {
            None => r matches Err(SidecarError::Syntax(_)),
            Some(root) => match sidecar_of(root) {
                None => r == Err::<Option<SidecarRaw>, SidecarError>(SidecarError::IllTyped),
                Some(view) => if view.version != 1 {
                    r == Err::<Option<SidecarRaw>, SidecarError>(
                        SidecarError::UnsupportedVersion(view.version),
                    )
                } else {
                    r matches Ok(Some(sidecar)) && sidecar@ == view
                },
            },
        },
{
    match source {
        None => Ok(None),
        Some(s) => match Json::parse(s) {
            Ok(root) => match read_sidecar(&root) {
                Some(sidecar) => if sidecar.version != 1 {
                    Err(SidecarError::UnsupportedVersion(sidecar.version))
                } else {
                    Ok(Some(sidecar))
                },
                None => Err(SidecarError::IllTyped),
            },
            Err(e) => Err(SidecarError::Syntax(e)),
        },
    }
}

/// Every section may be left out: a document that says no more than its version
/// is a sidecar, and one that says nothing is of version zero.
pub proof fn law_sections_are_optional(v: JsonView)
    requires
        v is Object,
        v.get("palm_offset_local"@) is None,
        v.get("body_colliders_override"@) is None,
        v.get("secondary_motion"@) is None,
        v.get("play_volume"@) is None,
    ensures
        sidecar_of(v) is Some == version_of(v.get("version"@)) is Some,
        sidecar_of(v) matches Some(view) ==> {
            &&& Some(view.version) == version_of(v.get("version"@))
            &&& view.palm_offset_local is None
            &&& view.colliders.len() == 0
            &&& view.secondary_motion is None
            &&& view.play_volume is None
        },
        v.get("version"@) is None ==> (sidecar_of(v) matches Some(view) && view.version == 0),
{
}

/// One ill-formed section makes the whole document no sidecar.
pub proof fn law_ill_formed_sections_are_refused(v: JsonView)
    requires
        version_of(cc5_json::field(v, "version"@, 0)) is None || cc5_json::numbers_maybe(
            cc5_json::field(v, "palm_offset_local"@, 1),
            3,
        ) is None || colliders_of(cc5_json::field(v, "body_colliders_override"@, 2)) is None
            || motion_maybe(cc5_json::field(v, "secondary_motion"@, 3)) is None || volume_maybe(
            cc5_json::field(v, "play_volume"@, 4),
        ) is None,
    ensures
        sidecar_of(v) is None,
{
}

} // verus!
