//! What the renderer is told when it starts.
use crate::json::Num;
use vstd::prelude::*;

verus! {

/// `n`, or one where that is zero.
pub open spec fn at_least_one(n: u32) -> u32 {
    if n == 0 {
        1
    } else {
        n
    }
}

/// `n`, or one where that is zero.
pub fn raise(n: u32) -> (r: u32)
    ensures
        r == at_least_one(n),
{
    if n == 0 {
        1
    } else {
        n
    }
}

/// The space that props are kept in.
#[derive(Clone, Copy, Debug, PartialEq, Eq, Structural)]
pub struct PlayVolume {
    pub half_extents_xz: Num,
    pub ceiling_y: Num,
}

impl PlayVolume {
    /// Four metres square and three metres high.
    pub open spec fn usual() -> PlayVolume {
        PlayVolume {
            half_extents_xz: Num::Thousandths(2000),
            ceiling_y: Num::Thousandths(3000),
        }
    }
}

impl Default for PlayVolume {
    fn default() -> (r: Self)
        ensures
            r == PlayVolume::usual(),
    {
        PlayVolume { half_extents_xz: Num::Thousandths(2000), ceiling_y: Num::Thousandths(3000) }
    }
}

/// How a hand grabs.
#[derive(Clone, Copy, Debug)]
pub struct GrabConfig {
    /// How near a wrist must be to a prop to take it.
    pub proximity_m: Num,
    /// How long a wrist may pursue a prop.
    pub timeout_secs: Num,
    /// Where a prop sits in the hand, in the wrist's frame.
    pub default_palm_offset: [Num; 3],
}

impl GrabConfig {
    /// Five centimetres, two seconds, eight centimetres along the wrist.
    pub open spec fn is_usual(self) -> bool {
        &&& self.proximity_m == Num::Thousandths(50)
        &&& self.timeout_secs == Num::Thousandths(2000)
        &&& self.default_palm_offset@ == seq![
            Num::Thousandths(80),
            Num::Thousandths(0),
            Num::Thousandths(0),
        ]
    }
}

impl Default for GrabConfig {
    fn default() -> (r: Self)
        ensures
            r.is_usual(),
    {
        let default_palm_offset = [
            Num::Thousandths(80),
            Num::Thousandths(0),
            Num::Thousandths(0),
        ];
        assert(default_palm_offset@ =~= seq![
            Num::Thousandths(80),
            Num::Thousandths(0),
            Num::Thousandths(0),
        ]);
        GrabConfig {
            proximity_m: Num::Thousandths(50),
            timeout_secs: Num::Thousandths(2000),
            default_palm_offset,
        }
    }
}

/// How the world behaves.
#[derive(Clone, Debug)]
pub struct PhysicsConfig {
    pub gravity: [Num; 3],
    pub timestep_hz: u32,
    pub max_substeps_per_frame: u32,
    /// Height of the floor; found from the feet where it is not given.
    pub ground_y: Option<Num>,
    /// No walls where there is none.
    pub play_volume: Option<PlayVolume>,
    /// The sidecar, where it does not lie next to the avatar.
    pub sidecar_path: Option<String>,
    pub grab: GrabConfig,
}

impl PhysicsConfig {
    /// Earth's gravity, 120 steps a second, four to a frame, a floor to be found.
    pub open spec fn is_usual(self) -> bool {
        &&& self.gravity@ == seq![
            Num::Thousandths(0),
            Num::Thousandths(-9810i64),
            Num::Thousandths(0),
        ]
        &&& self.timestep_hz == 120
        &&& self.max_substeps_per_frame == 4
        &&& self.ground_y is None
        &&& self.play_volume == Some(PlayVolume::usual())
        &&& self.sidecar_path is None
        &&& self.grab.is_usual()
    }

    /// Steps a second, at least one.
    pub fn steps_per_second(&self) -> (r: u32)
        ensures
            r == at_least_one(self.timestep_hz),
    {
        raise(self.timestep_hz)
    }

    /// Steps a frame, at least one.
    pub fn substeps(&self) -> (r: u32)
        ensures
            r == at_least_one(self.max_substeps_per_frame),
    {
        raise(self.max_substeps_per_frame)
    }
}

impl Default for PhysicsConfig {
    fn default() -> (r: Self)
        ensures
            r.is_usual(),
    {
        let gravity = [Num::Thousandths(0), Num::Thousandths(-9810i64), Num::Thousandths(0)];
        assert(gravity@ =~= seq![
            Num::Thousandths(0),
            Num::Thousandths(-9810i64),
            Num::Thousandths(0),
        ]);
        PhysicsConfig {
            gravity,
            timestep_hz: 120,
            max_substeps_per_frame: 4,
            ground_y: None,
            play_volume: Some(PlayVolume::default()),
            sidecar_path: None,
            grab: GrabConfig::default(),
        }
    }
}

/// What is rendered, and how large and fast.
#[derive(Clone, Debug)]
pub struct RendererConfig {
    pub glb_path: String,
    pub arkit_map_path: String,
    pub width: u32,
    pub height: u32,
    pub fps: u32,
    pub scene_glb_path: Option<String>,
    /// No physics where there is none.
    pub physics: Option<PhysicsConfig>,
}

impl RendererConfig {
    /// 1280 by 1280 pixels at 30 frames a second, with nothing to render.
    pub open spec fn is_usual(self) -> bool {
        &&& self.glb_path@.len() == 0
        &&& self.arkit_map_path@.len() == 0
        &&& self.width == 1280
        &&& self.height == 1280
        &&& self.fps == 30
        &&& self.scene_glb_path is None
        &&& self.physics is None
    }

    /// Frames a second, at least one.
    pub fn frames_per_second(&self) -> (r: u32)
        ensures
            r == at_least_one(self.fps),
    {
        raise(self.fps)
    }

    /// Whole milliseconds between two frames.
    pub fn frame_interval_ms(&self) -> (r: u64)
        ensures
            r == 1000int / (at_least_one(self.fps) as int),
    {
        let fps: u32 = self.frames_per_second();
        1000u64 / (fps as u64)
    }
}

impl Default for RendererConfig {
    fn default() -> (r: Self)
        ensures
            r.is_usual(),
    {
        proof {
            reveal_strlit("");
        }
        RendererConfig {
            glb_path: "".to_owned(),
            arkit_map_path: "".to_owned(),
            width: 1280,
            height: 1280,
            fps: 30,
            scene_glb_path: None,
            physics: None,
        }
    }
}

} // verus!
