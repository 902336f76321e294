//! The table that says which morph targets a facial channel drives.
use crate::cc5_json;
use crate::json;
use crate::json::{Json, JsonView, Num};
use crate::sidecar;
use vstd::prelude::*;
use vstd::string::*;

verus! {

/// One morph target that a channel drives, and the meshes that have it.
#[derive(Debug)]
pub struct MorphRef {
    pub morph: String,
    pub weight: Num,
    pub meshes: Vec<String>,
}

/// A channel's target as data.
#[verifier::ext_equal]
pub struct RefView {
    pub morph: Seq<char>,
    pub weight: Num,
    pub meshes: Seq<Seq<char>>,
}

impl View for MorphRef {
    type V = RefView;

    open spec fn view(&self) -> RefView {
        RefView {
            morph: self.morph@,
            weight: self.weight,
            meshes: sidecar::strings_view(self.meshes@),
        }
    }
}

/// The targets of every channel.
#[derive(Debug)]
pub struct ArkitMap {
    pub mapping: Vec<(String, Vec<MorphRef>)>,
}

/// Targets as data.
pub open spec fn refs_view(refs: Seq<MorphRef>) -> Seq<RefView> {
    refs.map_values(|r: MorphRef| r@)
}

/// Channels with their targets as data.
pub open spec fn channels_view(mapping: Seq<(String, Vec<MorphRef>)>) -> Seq<
    (Seq<char>, Seq<RefView>),
> {
    mapping.map_values(|e: (String, Vec<MorphRef>)| (e.0@, refs_view(e.1@)))
}

impl View for ArkitMap {
    type V = Seq<(Seq<char>, Seq<RefView>)>;

    open spec fn view(&self) -> Seq<(Seq<char>, Seq<RefView>)> {
        channels_view(self.mapping@)
    }
}

/// Why a table cannot be used.
#[derive(Debug)]
pub enum MapError {
    /// The text is no JSON.
    Syntax(serde_json::Error),
    /// A field is missing or has the wrong type.
    IllTyped,
}

/// The target that a record describes.
pub open spec fn ref_of(v: JsonView) -> Option<RefView> {
    let morph = match cc5_json::field(v, "morph"@, 0) {
        Some(m) => m.as_str(),
        None => None,
    };
    let weight = cc5_json::number_at(cc5_json::field(v, "weight"@, 1));
    let meshes = match cc5_json::field(v, "meshes"@, 2) {
        Some(JsonView::Array(items)) => sidecar::strings_of(items),
        _ => None,
    };
    if morph is None || weight is None || meshes is None || !cc5_json::is_record(v, 3) {
        None
    } else {
        Some(RefView { morph: morph->0, weight: weight->0, meshes: meshes->0 })
    }
}

/// The targets of an array, in order; an error where one is none.
pub open spec fn refs_of(items: Seq<JsonView>) -> Option<Seq<RefView>>
    decreases items.len(),
{
    if items.len() == 0 {
        Some(Seq::empty())
    } else {
        match (refs_of(items.drop_last()), ref_of(items.last())) {
            (Some(init), Some(r)) => Some(init.push(r)),
            _ => None,
        }
    }
}

/// The channels of an object, in order; an error where one has no list of
/// targets.
pub open spec fn channels_of(members: Seq<(Seq<char>, JsonView)>) -> Option<
    Seq<(Seq<char>, Seq<RefView>)>,
>
    decreases members.len(),
{
    if members.len() == 0 {
        Some(Seq::empty())
    } else {
        let last = match members.last().1 {
            JsonView::Array(items) => refs_of(items),
            _ => None,
        };
        match (channels_of(members.drop_last()), last) {
            (Some(init), Some(refs)) => Some(init.push((members.last().0, refs))),
            _ => None,
        }
    }
}

/// The table that a document describes.
pub open spec fn map_of(root: JsonView) -> Option<Seq<(Seq<char>, Seq<RefView>)>> {
    if !cc5_json::is_record(root, 1) {
        None
    } else {
        match cc5_json::field(root, "mapping"@, 0) {
            Some(JsonView::Object(members)) => channels_of(members),
            _ => None,
        }
    }
}

fn read_ref(v: &Json) -> (r: Option<MorphRef>)
    ensures
        r is Some == ref_of(v@) is Some,
        r matches Some(m) ==> Some(m@) == ref_of(v@),
{
    if !cc5_json::record(v, 3) {
        return None;
    }
    let morph: String = match cc5_json::read_field(v, "morph", 0) {
        Some(m) => match m.as_str() {
            Some(s) => s.to_owned(),
            None => return None,
        },
        None => return None,
    };
    let weight: Num = match cc5_json::read_number(cc5_json::read_field(v, "weight", 1)) {
        Some(n) => n,
        None => return None,
    };
    let meshes: Vec<String> = match cc5_json::read_field(v, "meshes", 2) {
        Some(m) => match sidecar::read_strings(m) {
            Some(list) => list,
            None => return None,
        },
        None => return None,
    };
    Some(MorphRef { morph, weight, meshes })
}

/// A prefix that is ill-formed makes the whole ill-formed.
proof fn lemma_refs_prefix(items: Seq<JsonView>, n: int)
    requires
        0 <= n <= items.len(),
        refs_of(items.take(n)) is None,
    ensures
        refs_of(items) is None,
    decreases items.len() - n,
{
    if n < items.len() {
        assert(items.take(n + 1).drop_last() =~= items.take(n));
        lemma_refs_prefix(items, n + 1);
    } else {
        assert(items.take(n) =~= items);
    }
}

fn read_refs(v: &Json) -> (r: Option<Vec<MorphRef>>)
    ensures
        r is Some == (v@ is Array && refs_of(v@->Array_0) is Some),
        r matches Some(list) ==> Some(refs_view(list@)) == refs_of(v@->Array_0),
{
    let items = match v.as_array() {
        Some(a) => a,
        None => return None,
    };
    let ghost all = v@->Array_0;
    let mut list: Vec<MorphRef> = Vec::new();
    let mut i: usize = 0;
    assert(refs_view(list@) =~= Seq::empty());
    assert(all.take(0) =~= Seq::<JsonView>::empty());
    while i < items.len()
        invariant
            i <= items.len(),
            v@ == JsonView::Array(all),
            all.len() == items@.len(),
            forall|k: int| 0 <= k < items@.len() ==> (#[trigger] items@[k])@ == all[k],
            refs_of(all.take(i as int)) == Some(refs_view(list@)),
        decreases items.len() - i,
    {
        let ghost before = list@;
        proof {
            assert(all.take(i + 1).drop_last() =~= all.take(i as int));
            assert(items@[i as int]@ == all[i as int]);
        }
        match read_ref(&items[i]) {
            Some(m) => {
                list.push(m);
                assert(refs_view(list@) =~= refs_view(before).push(m@));
            },
            None => {
                proof {
                    lemma_refs_prefix(all, i + 1);
                }
                return None;
            },
        }
        i = i + 1;
    }
    assert(all.take(all.len() as int) =~= all);
    Some(list)
}

/// A prefix that is ill-formed makes the whole ill-formed.
proof fn lemma_channels_prefix(members: Seq<(Seq<char>, JsonView)>, n: int)
    requires
        0 <= n <= members.len(),
        channels_of(members.take(n)) is None,
    ensures
        channels_of(members) is None,
    decreases members.len() - n,
{
    if n < members.len() {
        assert(members.take(n + 1).drop_last() =~= members.take(n));
        lemma_channels_prefix(members, n + 1);
    } else {
        assert(members.take(n) =~= members);
    }
}

fn read_channels(v: &Json) -> (r: Option<Vec<(String, Vec<MorphRef>)>>)
    ensures
        r is Some == (v@ is Object && channels_of(v@->Object_0) is Some),
        r matches Some(list) ==> Some(channels_view(list@)) == channels_of(v@->Object_0),
{
    let members = match v.as_object() {
        Some(m) => m,
        None => return None,
    };
    let ghost all = v@->Object_0;
    let mut list: Vec<(String, Vec<MorphRef>)> = Vec::new();
    let mut i: usize = 0;
    assert(channels_view(list@) =~= Seq::empty());
    assert(all.take(0) =~= Seq::<(Seq<char>, JsonView)>::empty());
    while i < members.len()
        invariant
            i <= members.len(),
            v@ == JsonView::Object(all),
            all.len() == members@.len(),
            forall|k: int|
                0 <= k < members@.len() ==> (
                (#[trigger] members@[k]).0@, members@[k].1@) == all[k],
            channels_of(all.take(i as int)) == Some(channels_view(list@)),
        decreases members.len() - i,
    {
        let ghost before = list@;
        proof {
            assert(all.take(i + 1).drop_last() =~= all.take(i as int));
            assert((members@[i as int].0@, members@[i as int].1@) == all[i as int]);
        }
        match read_refs(&members[i].1) {
            Some(refs) => {
                list.push((members[i].0.clone(), refs));
                assert(channels_view(list@) =~= channels_view(before).push(
                    (all[i as int].0, refs_view(refs@)),
                ));
            },
            None => {
                proof {
                    lemma_channels_prefix(all, i + 1);
                }
                return None;
            },
        }
        i = i + 1;
    }
    assert(all.take(all.len() as int) =~= all);
    Some(list)
}

/// Reads a table out of a document.
pub fn read_map(root: &Json) -> (r: Option<ArkitMap>)
    ensures
        r is Some == map_of(root@) is Some,
        r matches Some(map) ==> Some(map@) == map_of(root@),
{
    if !cc5_json::record(root, 1) {
        return None;
    }
    match cc5_json::read_field(root, "mapping", 0) {
        Some(m) => match read_channels(m) {
            Some(mapping) => Some(ArkitMap { mapping }),
            None => None,
        },
        None => None,
    }
}

/// Reads a table out of the text of a file.
pub fn load_arkit_map(source: &str) -> (r: Result<ArkitMap, MapError>)
    ensures
        match json::parsed(source@) {
            None => r matches Err(MapError::Syntax(_)),
            Some(root) => match map_of(root) {
                None => r == Err::<ArkitMap, MapError>(MapError::IllTyped),
                Some(view) => r matches Ok(map) && map@ == view,
            },
        },
{
    match Json::parse(source) {
        Ok(root) => match read_map(&root) {
            Some(map) => Ok(map),
            None => Err(MapError::IllTyped),
        },
        Err(e) => Err(MapError::Syntax(e)),
    }
}

} // verus!
