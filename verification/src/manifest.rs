//! Parameters that a pipeline manifest gives the node.
use crate::config;
use crate::node::{CcRenderConfig, CcRenderNode, NodeState};
use vstd::prelude::*;

verus! {

/// Parameters of a `CcRenderNode` in a manifest.
#[derive(Clone, Debug)]
pub struct CcRenderManifestParams {
    /// Path of the avatar. Required.
    pub glb_path: Option<String>,
    /// Path of the map from facial channels to morph targets. Required.
    pub arkit_map_path: Option<String>,
    /// Frames per second.
    pub framerate: u32,
    pub video_stream_id: String,
    /// Width of the picture in pixels.
    pub width: u32,
    /// Height of the picture in pixels.
    pub height: u32,
    /// Environment scene shown around the avatar.
    pub scene_glb_path: Option<String>,
    /// Emit pictures continuously once ready, without pairing them with audio.
    pub realtime_mode: bool,
}

impl Default for CcRenderManifestParams {
    fn default() -> (r: Self)
        ensures
            r.glb_path is None,
            r.arkit_map_path is None,
            r.framerate == 30,
            r.video_stream_id@ == "avatar.video"@,
            r.width == 1280,
            r.height == 1280,
            r.scene_glb_path is None,
            r.realtime_mode == false,
    {
        CcRenderManifestParams {
            glb_path: None,
            arkit_map_path: None,
            framerate: 30,
            video_stream_id: "avatar.video".to_owned(),
            width: 1280,
            height: 1280,
            scene_glb_path: None,
            realtime_mode: false,
        }
    }
}

/// `config` says what `params` say, with sizes and rate raised to at least one.
pub open spec fn config_of(params: CcRenderManifestParams, config: CcRenderConfig) -> bool {
    &&& params.glb_path == Some(config.glb_path)
    &&& params.arkit_map_path == Some(config.arkit_map_path)
    &&& config.width == config::at_least_one(params.width)
    &&& config.height == config::at_least_one(params.height)
    &&& config.fps == config::at_least_one(params.framerate)
    &&& config.video_stream_id == params.video_stream_id
    &&& config.scene_glb_path == params.scene_glb_path
    &&& config.realtime_mode == params.realtime_mode
}

/// Builds the node that a manifest asks for; both asset paths are required.
pub fn build_node<S: Copy>(params: CcRenderManifestParams, silence: S) -> (r: Result<
    CcRenderNode<S>,
    String,
>)
    ensures
        match r {
            Ok(node) => {
                &&& config_of(params, node.spec_config())
                &&& node@ == NodeState::<S>::initial(node.spec_config())
                &&& node@.wf()
                &&& node.spec_silence() == silence
            },
            Err(e) => {
                ||| params.glb_path is None && e@
                    == "CcRenderNode requires 'glb_path' (.alphabaked.glb)"@
                ||| params.glb_path is Some && params.arkit_map_path is None && e@
                    == "CcRenderNode requires 'arkit_map_path' (resolved JSON)"@
            },
        },
{
    let glb_path: String = match params.glb_path {
        Some(p) => p,
        None => return Err("CcRenderNode requires 'glb_path' (.alphabaked.glb)".to_owned()),
    };
    let arkit_map_path: String = match params.arkit_map_path {
        Some(p) => p,
        None => return Err("CcRenderNode requires 'arkit_map_path' (resolved JSON)".to_owned()),
    };
    let config = CcRenderConfig {
        glb_path,
        arkit_map_path,
        width: config::raise(params.width),
        height: config::raise(params.height),
        fps: config::raise(params.framerate),
        video_stream_id: params.video_stream_id,
        scene_glb_path: params.scene_glb_path,
        realtime_mode: params.realtime_mode,
    };
    Ok(CcRenderNode::new(config, silence))
}

/// Makes nodes for the plugin host.
#[derive(Debug)]
pub struct CcRenderNodeFactory;

impl Default for CcRenderNodeFactory {
    fn default() -> (r: Self)
        ensures
            r == CcRenderNodeFactory,
    {
        CcRenderNodeFactory
    }
}

impl CcRenderNodeFactory {
    /// Name under which manifests ask for the node.
    pub fn node_type(&self) -> (r: &'static str)
        ensures
            r@ == "CcRenderNode"@,
    {
        "CcRenderNode"
    }

    /// Builds a node from parsed parameters.
    pub fn create<S: Copy>(&self, params: CcRenderManifestParams, silence: S) -> (r: Result<
        CcRenderNode<S>,
        String,
    >)
        ensures
            r is Ok == (params.glb_path is Some && params.arkit_map_path is Some),
            r matches Ok(node) ==> config_of(params, node.spec_config()) && node@ == NodeState::<
                S,
            >::initial(node.spec_config()) && node@.wf() && node.spec_silence() == silence,
            r matches Err(e) ==> e@ == (if params.glb_path is None {
                "CcRenderNode requires 'glb_path' (.alphabaked.glb)"@
            } else {
                "CcRenderNode requires 'arkit_map_path' (resolved JSON)"@
            }),
    {
        build_node(params, silence)
    }
}

/// A node built from a manifest never has a zero size or rate.
pub proof fn law_config_is_positive(params: CcRenderManifestParams, config: CcRenderConfig)
    requires
        config_of(params, config),
    ensures
        config.width >= 1,
        config.height >= 1,
        config.fps >= 1,
{
}

} // verus!
