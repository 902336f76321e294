//! Envelopes on the node's reactive input.
use crate::arkit;
use crate::arkit::BlendshapeFrame;
use crate::json::{Json, JsonView};
use crate::renderer;
use crate::renderer::SkeletalPose;
use crate::text;
use vstd::prelude::*;

verus! {

/// The auxiliary port that an envelope addresses, if it addresses one.
pub open spec fn aux_port(v: JsonView) -> Option<Seq<char>> {
    match v.get("__aux_port__"@) {
        Some(p) => p.as_str(),
        None => None,
    }
}

/// The kind that an envelope names; empty if it names none.
pub open spec fn kind(v: JsonView) -> Seq<char> {
    match v.get("kind"@) {
        Some(k) => match k.as_str() {
            Some(s) => s,
            None => ""@,
        },
        None => ""@,
    }
}

/// What an envelope asks for.
pub enum Request {
    Blendshapes,
    Skeletal,
    BargeIn,
    /// Unknown kind or malformed payload.
    Nothing,
}

/// What the envelope `v` asks for. The barge-in port wins over the kind, and a
/// payload that cannot be read asks for nothing.
pub open spec fn request(v: JsonView) -> Request {
    if aux_port(v) == Some("barge_in"@) {
        Request::BargeIn
    } else if kind(v) == "blendshapes"@ {
        if arkit::has_frame(v) {
            Request::Blendshapes
        } else {
            Request::Nothing
        }
    } else if kind(v) == "skeletal_pose"@ {
        if renderer::has_pose(v) {
            Request::Skeletal
        } else {
            Request::Nothing
        }
    } else if kind(v) == "barge_in"@ {
        Request::BargeIn
    } else {
        Request::Nothing
    }
}

/// A decoded envelope.
#[derive(Debug)]
pub enum RendererInput {
    Blendshape(BlendshapeFrame),
    Skeletal(SkeletalPose),
    BargeIn,
}

/// Whether the envelope addresses the barge-in port.
pub fn is_barge_in_port(v: &Json) -> (r: bool)
    ensures
        r == (aux_port(v@) == Some("barge_in"@)),
{
    match v.get("__aux_port__") {
        Some(p) => match p.as_str() {
            Some(s) => text::same(s, "barge_in"),
            None => false,
        },
        None => false,
    }
}

/// Decodes an envelope.
pub fn decode_envelope(v: &Json) -> (r: Option<RendererInput>)
    ensures
        match request(v@) {
            Request::Blendshapes => r matches Some(RendererInput::Blendshape(f)) && arkit::frame_of(
                v@,
                f,
            ),
            Request::Skeletal => r matches Some(RendererInput::Skeletal(p)) && renderer::pose_of(
                v@,
                p,
            ),
            Request::BargeIn => r == Some(RendererInput::BargeIn),
            Request::Nothing => r is None,
        },
{
    if is_barge_in_port(v) {
        return Some(RendererInput::BargeIn);
    }
    let name: &str = match v.get("kind") {
        Some(k) => match k.as_str() {
            Some(s) => s,
            None => "",
        },
        None => "",
    };
    if text::same(name, "blendshapes") {
        match BlendshapeFrame::from_json(v) {
            Some(f) => Some(RendererInput::Blendshape(f)),
            None => None,
        }
    } else if text::same(name, "skeletal_pose") {
        match renderer::skeletal_pose_from_json(v) {
            Some(p) => Some(RendererInput::Skeletal(p)),
            None => None,
        }
    } else if text::same(name, "barge_in") {
        Some(RendererInput::BargeIn)
    } else {
        None
    }
}

/// An envelope that addresses the barge-in port is a barge-in, whatever kind it
/// names; one that addresses another port and names no known kind asks for
/// nothing.
pub proof fn law_barge_in_port_wins(v: JsonView)
    ensures
        aux_port(v) == Some("barge_in"@) ==> request(v) is BargeIn,
        aux_port(v) != Some("barge_in"@) && kind(v) != "blendshapes"@ && kind(v)
            != "skeletal_pose"@ && kind(v) != "barge_in"@ ==> request(v) is Nothing,
{
}

} // verus!
