//! The JSON chunk of a binary glTF file.
use crate::json;
use crate::json::{Json, JsonView};
use crate::sidecar;
use vstd::prelude::*;
use vstd::string::*;
use vstd::utf8::*;

verus! {

/// Bytes before the contents of the first chunk: the file header, the length of
/// the chunk and its kind.
pub const PREFIX_LEN: usize = 20;

/// A 32-bit number, least significant byte first.
pub open spec fn le_u32(b: Seq<u8>, at: int) -> nat {
    (b[at] + b[at + 1] * 256 + b[at + 2] * 65536 + b[at + 3] * 16777216) as nat
}

/// The first chunk holds JSON.
pub open spec fn is_json_chunk(b: Seq<u8>) -> bool {
    b.len() >= 20 && b[16] == 0x4a && b[17] == 0x53 && b[18] == 0x4f && b[19] == 0x4e
}

/// Length of the JSON chunk, given at least the bytes before its contents.
pub fn json_chunk_len(prefix: &[u8]) -> (r: Option<u32>)
    ensures
        r is Some == is_json_chunk(prefix@),
        r matches Some(n) ==> n == le_u32(prefix@, 12),
{
    if prefix.len() < PREFIX_LEN {
        return None;
    }
    if prefix[16] != 0x4a || prefix[17] != 0x53 || prefix[18] != 0x4f || prefix[19] != 0x4e {
        return None;
    }
    Some(
        prefix[12] as u32 + prefix[13] as u32 * 256 + prefix[14] as u32 * 65536 + prefix[15] as u32
            * 16777216,
    )
}

/// Bytes read as text, with replacement characters for what is not UTF-8.
pub uninterp spec fn lossy(bytes: Seq<u8>) -> Seq<char>;

/// Wraps `String::from_utf8_lossy`. The result depends on the bytes alone; bytes
/// that are valid UTF-8 are read as they are.
#[verifier::external_body]
fn from_utf8_lossy(bytes: &[u8]) -> (r: String)
    ensures
        r@ == lossy(bytes@),
        valid_utf8(bytes@) ==> r@ == decode_utf8(bytes@),
{
    String::from_utf8_lossy(bytes).into_owned()
}

/// The name of one material; empty where it has none.
pub open spec fn material_name(material: JsonView) -> Seq<char> {
    match material.get("name"@) {
        Some(n) => match n.as_str() {
            Some(s) => s,
            None => ""@,
        },
        None => ""@,
    }
}

/// The names of the materials of a document, in order.
pub open spec fn names_in(root: JsonView) -> Seq<Seq<char>> {
    match root.get("materials"@) {
        Some(JsonView::Array(items)) => items.map_values(|m: JsonView| material_name(m)),
        _ => Seq::empty(),
    }
}

/// The names of the materials of a document, in order.
pub fn material_names(root: &Json) -> (r: Vec<String>)
    ensures
        sidecar::strings_view(r@) == names_in(root@),
{
    let mut names: Vec<String> = Vec::new();
    let materials = match root.get("materials") {
        Some(m) => m,
        None => {
            assert(sidecar::strings_view(names@) =~= Seq::empty());
            return names;
        },
    };
    let items = match materials.as_array() {
        Some(a) => a,
        None => {
            assert(sidecar::strings_view(names@) =~= Seq::empty());
            return names;
        },
    };
    let ghost all = materials@->Array_0;
    let mut i: usize = 0;
    while i < items.len()
        invariant
            i <= items.len(),
            all.len() == items@.len(),
            forall|k: int| 0 <= k < items@.len() ==> (#[trigger] items@[k])@ == all[k],
            names@.len() == i,
            forall|k: int| 0 <= k < i ==> (#[trigger] names@[k])@ == material_name(all[k]),
        decreases items.len() - i,
    {
        assert(items@[i as int]@ == all[i as int]);
        let name: String = match items[i].get("name") {
            Some(n) => match n.as_str() {
                Some(s) => s.to_owned(),
                None => "".to_owned(),
            },
            None => "".to_owned(),
        };
        names.push(name);
        i = i + 1;
    }
    assert(sidecar::strings_view(names@) =~= names_in(root@));
    names
}

/// The names of the materials that a JSON chunk lists; none where it cannot be
/// parsed.
pub open spec fn names_in_chunk(chunk: Seq<u8>) -> Seq<Seq<char>> {
    match json::parsed(lossy(chunk)) {
        Some(root) => names_in(root),
        None => Seq::empty(),
    }
}

/// The names of the materials that a JSON chunk lists, in order.
pub fn material_names_in_chunk(chunk: &[u8]) -> (r: Vec<String>)
    ensures
        sidecar::strings_view(r@) == names_in_chunk(chunk@),
{
    let source: String = from_utf8_lossy(chunk);
    match Json::parse(source.as_str()) {
        Ok(root) => material_names(&root),
        Err(_) => {
            let none: Vec<String> = Vec::new();
            assert(sidecar::strings_view(none@) =~= Seq::empty());
            none
        },
    }
}

/// The names of the materials of a whole file; none where the file is cut short
/// or does not start with a JSON chunk.
pub open spec fn names_in_file(file: Seq<u8>) -> Seq<Seq<char>> {
    if is_json_chunk(file) && 20 + le_u32(file, 12) <= file.len() {
        names_in_chunk(file.subrange(20, 20 + le_u32(file, 12) as int))
    } else {
        Seq::empty()
    }
}

/// The names of the materials of a whole file, in order.
pub fn parse_material_names_from_glb(file: &[u8]) -> (r: Vec<String>)
    ensures
        sidecar::strings_view(r@) == names_in_file(file@),
{
    let none: Vec<String> = Vec::new();
    assert(sidecar::strings_view(none@) =~= Seq::empty());
    match json_chunk_len(file) {
        None => none,
        Some(n) => {
            let len: usize = n as usize;
            if file.len() - PREFIX_LEN < len {
                return none;
            }
            let chunk: &[u8] = vstd::slice::slice_subrange(file, PREFIX_LEN, PREFIX_LEN + len);
            material_names_in_chunk(chunk)
        },
    }
}

/// There are as many names as materials, named or not.
pub proof fn law_one_name_per_material(root: JsonView, items: Seq<JsonView>)
    requires
        root.get("materials"@) == Some(JsonView::Array(items)),
    ensures
        names_in(root).len() == items.len(),
{
}

} // verus!
