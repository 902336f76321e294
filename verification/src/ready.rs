//! When a freshly loaded scene counts as ready.
use vstd::prelude::*;

verus! {

/// Ticks that a complete scene is held before it counts as ready.
pub const READY_SETTLE_FRAMES: u32 = 60;

/// Ticks for which the scene must not grow before it counts as complete.
pub const READY_STABLE_TICKS: u32 = 8;

/// Watches a scene until it is ready.
#[derive(Clone, Copy, Debug, PartialEq, Eq, Structural)]
pub struct ReadyMonitor {
    pub settled_frames: u32,
    pub last_mesh_count: usize,
    pub last_material_count: usize,
    pub stable_count_ticks: u32,
    pub fired: bool,
}

/// What is known of the scene in one tick.
#[derive(Clone, Copy, Debug, PartialEq, Eq, Structural)]
pub struct SceneReport {
    /// The bind pose has been captured.
    pub captured: bool,
    /// Avatar scenes spawned.
    pub scenes: usize,
    /// Everything that the avatar scenes depend on is loaded.
    pub deps_loaded: bool,
    pub meshes: usize,
    pub materials: usize,
}

/// `n + 1`, as far as the machine word goes.
pub open spec fn next(n: u32) -> u32 {
    if n < u32::MAX {
        (n + 1) as u32
    } else {
        n
    }
}

/// A monitor that has seen nothing.
pub open spec fn fresh() -> ReadyMonitor {
    ReadyMonitor {
        settled_frames: 0,
        last_mesh_count: 0,
        last_material_count: 0,
        stable_count_ticks: 0,
        fired: false,
    }
}

/// The avatar is in the scene with everything that it depends on.
pub open spec fn loaded(report: SceneReport) -> bool {
    report.captured && report.scenes > 0 && report.deps_loaded
}

/// The monitor after one tick.
pub open spec fn watched(m: ReadyMonitor, report: SceneReport) -> ReadyMonitor {
    if m.fired {
        m
    } else if !loaded(report) {
        ReadyMonitor { settled_frames: 0, ..m }
    } else if report.meshes != m.last_mesh_count || report.materials != m.last_material_count {
        ReadyMonitor {
            settled_frames: 0,
            last_mesh_count: report.meshes,
            last_material_count: report.materials,
            stable_count_ticks: 0,
            fired: false,
        }
    } else {
        let stable = next(m.stable_count_ticks);
        if stable < READY_STABLE_TICKS {
            ReadyMonitor { stable_count_ticks: stable, ..m }
        } else {
            let settled = next(m.settled_frames);
            ReadyMonitor {
                stable_count_ticks: stable,
                settled_frames: settled,
                fired: settled >= READY_SETTLE_FRAMES,
                ..m
            }
        }
    }
}

impl Default for ReadyMonitor {
    fn default() -> (r: Self)
        ensures
            r == fresh(),
    {
        ReadyMonitor {
            settled_frames: 0,
            last_mesh_count: 0,
            last_material_count: 0,
            stable_count_ticks: 0,
            fired: false,
        }
    }
}

impl ReadyMonitor {
    /// Takes note of one tick and returns whether the scene has become ready in
    /// it.
    pub fn watch(&mut self, report: SceneReport) -> (r: bool)
        ensures
            *final(self) == watched(*old(self), report),
            r == (!old(self).fired && final(self).fired),
    {
        if self.fired {
            return false;
        }
        if !report.captured || report.scenes == 0 || !report.deps_loaded {
            self.settled_frames = 0;
            return false;
        }
        if report.meshes != self.last_mesh_count || report.materials != self.last_material_count {
            self.last_mesh_count = report.meshes;
            self.last_material_count = report.materials;
            self.stable_count_ticks = 0;
            self.settled_frames = 0;
            return false;
        }
        self.stable_count_ticks = self.stable_count_ticks.saturating_add(1);
        if self.stable_count_ticks < READY_STABLE_TICKS {
            return false;
        }
        self.settled_frames = self.settled_frames.saturating_add(1);
        if self.settled_frames >= READY_SETTLE_FRAMES {
            self.fired = true;
            return true;
        }
        false
    }
}

/// The monitor after a series of ticks.
pub open spec fn watched_all(m: ReadyMonitor, reports: Seq<SceneReport>) -> ReadyMonitor
    decreases reports.len(),
{
    if reports.len() == 0 {
        m
    } else {
        watched(watched_all(m, reports.drop_last()), reports.last())
    }
}

/// Once ready, always ready.
pub proof fn law_ready_is_final(m: ReadyMonitor, reports: Seq<SceneReport>)
    requires
        m.fired,
    ensures
        watched_all(m, reports) == m,
    decreases reports.len(),
{
    if reports.len() > 0 {
        law_ready_is_final(m, reports.drop_last());
    }
}

/// A scene that has just changed for the last time is ready after exactly as
/// many further ticks as it takes to count it stable and then to settle, the
/// first settled tick being the last of the stable ones.
pub proof fn law_ready_after_stable_ticks(m: ReadyMonitor, reports: Seq<SceneReport>)
    requires
        !m.fired,
        m.settled_frames == 0,
        m.stable_count_ticks == 0,
        reports.len() < u32::MAX,
        forall|i: int|
            0 <= i < reports.len() ==> loaded(#[trigger] reports[i]) && reports[i].meshes
                == m.last_mesh_count && reports[i].materials == m.last_material_count,
    ensures
        ({
            let n = reports.len();
            let total = READY_STABLE_TICKS + READY_SETTLE_FRAMES - 1;
            let end = watched_all(m, reports);
            &&& end.fired == (n >= total)
            &&& n <= total ==> end.stable_count_ticks == n
            &&& n <= total ==> end.settled_frames == (if n >= READY_STABLE_TICKS {
                n - READY_STABLE_TICKS + 1
            } else {
                0
            })
        }),
    decreases reports.len(),
{
    if reports.len() > 0 {
        let init = reports.drop_last();
        assert forall|i: int| 0 <= i < init.len() implies loaded(#[trigger] init[i])
            && init[i].meshes == m.last_mesh_count && init[i].materials
            == m.last_material_count by {
            assert(init[i] == reports[i]);
        }
        law_ready_after_stable_ticks(m, init);
        assert(loaded(reports.last())) by {
            assert(reports.last() == reports[reports.len() - 1]);
        }
        lemma_counts_kept(m, init);
    }
}

/// Ticks that see the same counts keep them.
proof fn lemma_counts_kept(m: ReadyMonitor, reports: Seq<SceneReport>)
    requires
        forall|i: int|
            0 <= i < reports.len() ==> (#[trigger] reports[i]).meshes == m.last_mesh_count
                && reports[i].materials == m.last_material_count,
    ensures
        watched_all(m, reports).last_mesh_count == m.last_mesh_count,
        watched_all(m, reports).last_material_count == m.last_material_count,
    decreases reports.len(),
{
    if reports.len() > 0 {
        let init = reports.drop_last();
        assert forall|i: int| 0 <= i < init.len() implies (#[trigger] init[i]).meshes
            == m.last_mesh_count && init[i].materials == m.last_material_count by {
            assert(init[i] == reports[i]);
        }
        lemma_counts_kept(m, init);
    }
}

/// A scene that is not completely loaded is not ready, and has to settle from
/// the start.
pub proof fn law_unloaded_is_not_ready(m: ReadyMonitor, report: SceneReport)
    requires
        !m.fired,
        !loaded(report),
    ensures
        !watched(m, report).fired,
        watched(m, report).settled_frames == 0,
{
}

/// A scene that grows is not ready, and has to become stable and settle from the
/// start.
pub proof fn law_growth_starts_over(m: ReadyMonitor, report: SceneReport)
    requires
        !m.fired,
        loaded(report),
        report.meshes != m.last_mesh_count || report.materials != m.last_material_count,
    ensures
        !watched(m, report).fired,
        watched(m, report).settled_frames == 0,
        watched(m, report).stable_count_ticks == 0,
{
}

/// A scene that is captured, spawned and loaded and no longer changes is ready after
/// 67 ticks, not one earlier: eight to be stable, sixty to settle, one of them both.
pub proof fn law_ready_after_67_ticks(m: ReadyMonitor, reports: Seq<SceneReport>)
    requires
        !m.fired,
        m.settled_frames == 0,
        m.stable_count_ticks == 0,
        reports.len() < u32::MAX,
        forall|i: int|
            0 <= i < reports.len() ==> (#[trigger] reports[i]).captured && reports[i].scenes >= 1
                && reports[i].deps_loaded && reports[i].meshes == m.last_mesh_count
                && reports[i].materials == m.last_material_count,
    ensures
        watched_all(m, reports).fired <==> reports.len() >= 67,
{
    assert forall|i: int| 0 <= i < reports.len() implies loaded(#[trigger] reports[i])
        && reports[i].meshes == m.last_mesh_count && reports[i].materials
        == m.last_material_count by {}
    law_ready_after_stable_ticks(m, reports);
}

/// What one tick does to a monitor that has not fired: a scene that is incomplete
/// starts settling anew, a scene that has changed starts everything anew and is
/// remembered, and a stable scene comes one tick nearer.
pub proof fn law_one_tick(m: ReadyMonitor, report: SceneReport)
    requires
        !m.fired,
        m.stable_count_ticks < u32::MAX,
        m.settled_frames < 59,
    ensures
        ({
            let after = watched(m, report);
            let complete = report.captured && report.scenes >= 1 && report.deps_loaded;
            let changed = report.meshes != m.last_mesh_count || report.materials
                != m.last_material_count;
            &&& !after.fired
            &&& !complete ==> after.settled_frames == 0 && after.stable_count_ticks
                == m.stable_count_ticks && after.last_mesh_count == m.last_mesh_count
                && after.last_material_count == m.last_material_count
            &&& complete ==> after.last_mesh_count == report.meshes && after.last_material_count
                == report.materials
            &&& complete && changed ==> after.settled_frames == 0 && after.stable_count_ticks == 0
            &&& complete && !changed ==> after.stable_count_ticks == m.stable_count_ticks + 1
            &&& complete && !changed && m.stable_count_ticks < 7 ==> after.settled_frames
                == m.settled_frames
            &&& complete && !changed && m.stable_count_ticks >= 7 ==> after.settled_frames
                == m.settled_frames + 1
        }),
{
}

/// A new monitor has seen an empty scene and has not fired.
pub proof fn law_fresh_monitor()
    ensures
        !fresh().fired,
        fresh().settled_frames == 0,
        fresh().stable_count_ticks == 0,
        fresh().last_mesh_count == 0,
        fresh().last_material_count == 0,
{
}

} // verus!
