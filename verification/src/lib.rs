//! Decision logic of a real-time avatar renderer.
pub mod adapter;
pub mod arkit;
pub mod audio;
pub mod bind;
pub mod body_laws;
pub mod camera;
pub mod camera_laws;
pub mod capture;
pub mod cc5_json;
pub mod cc5_query;
pub mod colliders;
pub mod config;
pub mod data_laws;
pub mod envelope;
pub mod envelope_laws;
pub mod face;
pub mod face_laws;
pub mod glb;
pub mod grab;
pub mod grab_laws;
pub mod hierarchy;
pub mod json;
pub mod list;
pub mod lookup_laws;
pub mod lowercase;
pub mod manifest;
pub mod morph;
pub mod morph_laws;
pub mod morph_map;
pub mod motion;
pub mod node;
pub mod node_laws;
pub mod node_tick_laws;
pub mod oneshot;
pub mod operation_laws;
pub mod overlay;
pub mod path_laws;
pub mod paths;
pub mod pattern;
pub mod picture_laws;
pub mod posing_laws;
pub mod props;
pub mod ready;
pub mod renderer;
pub mod retarget;
pub mod retarget_laws;
pub mod scene_laws;
pub mod secondary;
pub mod secondary_laws;
pub mod sidecar;
pub mod skeleton;
pub mod skeleton_laws;
pub mod smpl;
pub mod step_laws;
pub mod text;
pub mod text_laws;
pub mod world;
