//! What holds of the operations on hands, props and soft parts, told by what goes in
//! and what comes out.
use crate::cc5_json::{Cc5BreastTuning, Cc5SoftPhysics};
use crate::grab;
use crate::grab::{GrabFsms, GrabState, HandReport, JointAction, StateView};
use crate::grab_laws;
use crate::grab_laws::HandTick;
use crate::json::Num;
use crate::morph;
use crate::pattern;
use crate::props;
use crate::props::{FailureView, PropRegistry};
use crate::renderer::{ArkitPose, GrabCmd, GrabOrRelease, Hand, PropSnapshot, SceneState};
use crate::secondary;
use crate::secondary::{
    BoneEntry, BreastTuning, JiggleMode, JigglePlan, Stiffness, StrayLimit,
};
use crate::secondary_laws;
use crate::sidecar;
use crate::sidecar::SecondaryMotionRaw;
use crate::text;
use vstd::prelude::*;

verus! {

/// In one tick the two hands are handled on their own, the left before the right: each
/// gets the latest of its commands, its own report and the tick's length, and what is
/// to be done to the joints comes in this order.
pub proof fn law_hands_are_handled<F: Copy>(
    fsms: &mut GrabFsms<F>,
    registry: &mut PropRegistry,
    cmds: &Vec<GrabOrRelease<F>>,
    left: HandReport,
    right: HandReport,
    palm: [F; 3],
    dt: u64,
    timeout: u64,
    actions: Vec<JointAction<F>>,
)
    requires
        call_ensures(
            grab::handle_grab_cmds::<F>,
            (fsms, registry, cmds, left, right, palm, dt, timeout),
            actions,
        ),
    ensures
        ({
            let l = grab_laws::ticked(
                old(fsms).left@,
                Hand::Left,
                (HandTick {
                    cmds: cmds@,
                    registry: old(registry)@,
                    report: left,
                    dt: dt as nat,
                }),
                palm,
                timeout as nat,
            );
            let r = grab_laws::ticked(
                old(fsms).right@,
                Hand::Right,
                (HandTick { cmds: cmds@, registry: l.registry, report: right, dt: dt as nat }),
                palm,
                timeout as nat,
            );
            &&& final(fsms).left@ == l.state
            &&& final(fsms).right@ == r.state
            &&& final(registry)@ == r.registry
            &&& actions@ == l.actions + r.actions
        }),
{
}

/// A hand that reaches a prop it was told to grab fixes it where the command asked for:
/// the right hand, told so in an earlier tick and not disturbed since.
pub proof fn law_right_hand_takes_the_prop<F: Copy>(
    fsms: &mut GrabFsms<F>,
    registry: &mut PropRegistry,
    cmds: &Vec<GrabOrRelease<F>>,
    left: HandReport,
    right: HandReport,
    palm: [F; 3],
    dt: u64,
    timeout: u64,
    actions: Vec<JointAction<F>>,
    before: StateView<F>,
    start: HandTick<F>,
    k: int,
    g: GrabCmd<F>,
    waits: Seq<HandTick<F>>,
    wrist: u64,
)
    requires
        call_ensures(
            grab::handle_grab_cmds::<F>,
            (fsms, registry, cmds, left, right, palm, dt, timeout),
            actions,
        ),
        0 <= k < start.cmds.len(),
        start.cmds[k] == GrabOrRelease::Grab(g),
        g.hand == Hand::Right,
        grab_laws::quiet_from(start.cmds, Hand::Right, k + 1),
        grab_laws::undisturbed(waits, Hand::Right),
        grab_laws::lasting(waits) < timeout || waits.len() == 0,
        old(fsms).right@ == grab_laws::ticked_on(
            grab_laws::ticked(before, Hand::Right, start, palm, timeout as nat).state,
            Hand::Right,
            waits,
            palm,
            timeout as nat,
        ),
        cmds@.len() == 0,
        old(fsms).left@ is Idle,
        right.reached,
        right.wrist == Some(wrist),
        old(registry)@.by_id.dom().contains(g.target@),
    ensures
        ({
            let prop = old(registry)@.by_id[g.target@];
            &&& actions@.len() == 1
            &&& g.palm_offset_override matches Some(p) ==> actions@[0] == (JointAction::Attach {
                prop,
                wrist,
                palm: p,
            })
            &&& g.palm_offset_override is None ==> actions@[0] == (JointAction::Attach {
                prop,
                wrist,
                palm,
            })
            &&& final(fsms).right@ == (StateView::<F>::Attached { target: g.target@, prop })
            &&& final(fsms).left@ is Idle
            &&& final(registry)@ == old(registry)@
        }),
{
    law_hands_are_handled(fsms, registry, cmds, left, right, palm, dt, timeout, actions);
    let tick = HandTick {
        cmds: cmds@,
        registry: old(registry)@,
        report: left,
        dt: dt as nat,
    };
    grab_laws::law_idle_and_holding_hands_stay(
        old(fsms).left@,
        Hand::Left,
        tick,
        palm,
        timeout as nat,
    );
    let reach = HandTick {
        cmds: cmds@,
        registry: old(registry)@,
        report: right,
        dt: dt as nat,
    };
    grab_laws::law_prop_is_held_where_asked(
        before,
        Hand::Right,
        start,
        k,
        g,
        waits,
        reach,
        wrist,
        palm,
        timeout as nat,
    );
}

/// The latest command for a hand is the last one in the list that is for it.
pub proof fn law_latest_command_is_found<F>(
    cmds: &Vec<GrabOrRelease<F>>,
    hand: Hand,
    r: Option<&GrabOrRelease<F>>,
    k: int,
)
    requires
        call_ensures(grab::latest_cmd::<F>, (cmds, hand), r),
        -1 <= k < cmds@.len(),
        grab_laws::quiet_from(cmds@, hand, k + 1),
        k >= 0 ==> grab_laws::addressee(cmds@[k]) == hand,
    ensures
        k < 0 ==> r is None,
        k >= 0 ==> (r matches Some(c) && c@ == cmds@[k]@),
{
    grab_laws::law_latest_command(cmds@, hand, k);
}

/// A prop that is replaced leaves the registry and every hand that holds it, with one
/// failure for each such hand.
pub proof fn law_prop_is_displaced<F>(
    fsms: &mut GrabFsms<F>,
    registry: &mut PropRegistry,
    id: &str,
    r: Option<u64>,
)
    requires
        call_ensures(grab::displace_prop::<F>, (fsms, registry, id), r),
        old(registry)@.by_id.dom().contains(id@),
    ensures
        r == Some(old(registry)@.by_id[id@]),
        !final(registry)@.by_id.dom().contains(id@),
        ({
            let left = old(fsms).left matches GrabState::Attached { target, .. } && target@ == id@;
            let right = old(fsms).right matches GrabState::Attached { target, .. } && target@
                == id@;
            let n = old(registry)@.failures.len() as int;
            &&& left ==> final(fsms).left is Idle && final(registry)@.failures[n] == (FailureView {
                hand: Hand::Left,
                target: id@,
                reason: "prop_replaced"@,
            })
            &&& !left ==> final(fsms).left == old(fsms).left
            &&& right ==> final(fsms).right is Idle && final(registry)@.failures.last() == (
            FailureView { hand: Hand::Right, target: id@, reason: "prop_replaced"@ })
            &&& !right ==> final(fsms).right == old(fsms).right
            &&& final(registry)@.failures.len() == n + (if left {
                1int
            } else {
                0
            }) + (if right {
                1int
            } else {
                0
            })
        }),
{
    grab_laws::law_holder(*old(fsms), id@);
    grab_laws::law_replacement_is_noted(*old(fsms), old(registry)@, id@);
}

/// The scene is reported with its props, what the hands hold and every failure that has
/// not been reported; then no failure waits.
pub proof fn law_scene_report<F>(
    registry: &mut PropRegistry,
    fsms: &GrabFsms<F>,
    props: Vec<PropSnapshot<F>>,
    last_pts: Option<u64>,
    r: Option<SceneState<F>>,
    i: int,
)
    requires
        call_ensures(grab::publish_scene_state::<F>, (registry, fsms, props, last_pts), r),
    ensures
        props@.len() > 0 || fsms.left is Attached || fsms.right is Attached
            || old(registry)@.failures.len() > 0 ==> r is Some,
        props@.len() == 0 && !(fsms.left is Attached) && !(fsms.right is Attached)
            && old(registry)@.failures.len() == 0 ==> r is None,
        r matches Some(s) ==> {
            &&& s.props@ == props@
            &&& s.failed_grabs@.len() == old(registry)@.failures.len()
            &&& 0 <= i < s.failed_grabs@.len() ==> s.failed_grabs@[i]@
                == old(registry)@.failures[i]
            &&& last_pts matches Some(p) ==> s.pts_ms == p
            &&& last_pts is None ==> s.pts_ms == 0
            &&& fsms.left matches GrabState::Attached { target, .. } ==> s.grabs@.len() >= 1
                && s.grabs@[0].hand == Hand::Left && s.grabs@[0].prop@ == target@
            &&& fsms.right matches GrabState::Attached { target, .. } ==> s.grabs@.len() >= 1
                && s.grabs@.last().hand == Hand::Right && s.grabs@.last().prop@ == target@
            &&& !(fsms.left is Attached) && !(fsms.right is Attached) ==> s.grabs@.len() == 0
        },
        final(registry)@.failures.len() == 0,
        final(registry)@.by_id == old(registry)@.by_id,
{
    grab_laws::law_held_props(*fsms);
    let held = grab::held(*fsms);
    if r is Some {
        let s = r->0;
        let seen = grab::grabs_view(s.grabs@);
        assert(seen.len() == s.grabs@.len());
        assert(forall|k: int|
            0 <= k < s.grabs@.len() ==> #[trigger] seen[k] == (
                s.grabs@[k].hand,
                s.grabs@[k].prop@,
            ));
        if s.grabs@.len() > 0 {
            assert(seen[0] == held[0]);
            assert(seen[s.grabs@.len() - 1] == held[held.len() - 1]);
        }
        assert(0 <= i < s.failed_grabs@.len() ==> props::failures_view(s.failed_grabs@)[i]
            == s.failed_grabs@[i]@);
    }
}

/// Without a sidecar every bone with a parent that one of the built-in patterns finds
/// gets a plan of its own: hair, breasts, skirts, tongue and seat swing.
pub proof fn law_soft_parts_are_planned(
    bones: &Vec<BoneEntry>,
    hair: Option<Cc5SoftPhysics>,
    breast_mass: Num,
    r: Vec<JigglePlan>,
    k: int,
)
    requires
        call_ensures(
            secondary::auto_detect_chains,
            (bones, None::<&SecondaryMotionRaw>, hair, breast_mass),
            r,
        ),
        0 <= k < bones@.len(),
        bones@[k].parent is Some,
        secondary_laws::finds("^Skirt_.*"@, bones@[k].name@) || secondary_laws::finds(
            "^CC_Base_Hair_.*"@,
            bones@[k].name@,
        ) || secondary_laws::finds(".*Breast.*"@, bones@[k].name@) || secondary_laws::finds(
            "^CC_Base_Tongue.*"@,
            bones@[k].name@,
        ) || secondary_laws::finds(".*Glute.*"@, bones@[k].name@) || secondary_laws::finds(
            ".*Buttock.*"@,
            bones@[k].name@,
        ),
    ensures
        exists|i: int|
            0 <= i < r@.len() && (#[trigger] r@[i]).entity == bones@[k].entity && r@[i].name@
                == bones@[k].name@ && Some(r@[i].parent) == bones@[k].parent,
{
    secondary_laws::law_skirts_swing_without_a_sidecar(bones@, k, hair, breast_mass);
    let all = secondary_laws::planned(bones@, None, hair, breast_mass);
    let i = choose|i: int|
        0 <= i < all.len() && (#[trigger] all[i]).entity == bones@[k].entity && all[i].name
            == bones@[k].name@ && Some(all[i].parent) == bones@[k].parent;
    assert(all[i] == secondary::plans_view(r@)[i]);
    assert(secondary::plans_view(r@)[i] == r@[i]@);
    assert(r@[i].entity == bones@[k].entity);
}

/// Whatever is planned is planned for a bone that has a parent and a name that moves.
pub proof fn law_only_soft_parts_are_planned(
    bones: &Vec<BoneEntry>,
    hair: Option<Cc5SoftPhysics>,
    breast_mass: Num,
    r: Vec<JigglePlan>,
    i: int,
)
    requires
        call_ensures(
            secondary::auto_detect_chains,
            (bones, None::<&SecondaryMotionRaw>, hair, breast_mass),
            r,
        ),
        0 <= i < r@.len(),
    ensures
        ({
            let n = r@[i].name@;
            ||| secondary_laws::finds("^CC_Base_Hair_.*"@, n)
            ||| secondary_laws::finds(".*Breast.*"@, n)
            ||| secondary_laws::finds("^Skirt_.*"@, n)
            ||| secondary_laws::finds("^CC_Base_Tongue.*"@, n)
            ||| secondary_laws::finds(".*Glute.*"@, n)
            ||| secondary_laws::finds(".*Buttock.*"@, n)
        }),
{
    let all = secondary::plans_view(r@);
    assert(all[i] == r@[i]@);
    let views = secondary::bones_view(bones@);
    let langs = pattern::languages(secondary::patterns_in_force(None));
    secondary::law_plans_come_from_marked_bones(
        views,
        secondary::marks(views, langs),
        secondary::lower_names(views),
        secondary::chains_in_force(None),
        hair,
        breast_mass,
        i,
    );
    secondary_laws::law_what_moves_without_a_sidecar(r@[i].name@);
}

/// Without a sidecar the plan for a bone shifts breasts and turns the rest, and has the
/// default values where the bone is no hair.
pub proof fn law_plan_without_a_sidecar(
    bone: &BoneEntry,
    parent: u64,
    lower: &str,
    hair: Option<Cc5SoftPhysics>,
    breast_mass: Num,
    none: &Vec<sidecar::JiggleChainRaw>,
    r: JigglePlan,
)
    requires
        call_ensures(
            secondary::plan_bone,
            (bone, parent, lower, none, hair, breast_mass),
            r,
        ),
        none@.len() == 0,
    ensures
        r.entity == bone.entity,
        r.name@ == bone.name@,
        r.parent == parent,
        text::contains(lower@, "breast"@) ==> r.mode == JiggleMode::Translation && r.mass
            == breast_mass,
        !text::contains(lower@, "breast"@) ==> r.mode == JiggleMode::Rotation && r.mass
            == r.tuning.mass,
        !text::contains(lower@, "hair"@) || hair is None ==> {
            &&& r.tuning.stiffness == Stiffness::Given(Num::Thousandths(30000))
            &&& r.tuning.damping == Num::Thousandths(2500)
            &&& r.tuning.mass == Num::Thousandths(300)
            &&& r.tuning.radius == Num::Thousandths(40)
        },
        text::contains(lower@, "hair"@) ==> (hair matches Some(h) ==> {
            &&& r.tuning.stiffness == Stiffness::Resonant(h.stiffness_freq_hz)
            &&& r.tuning.damping == h.damping
            &&& r.tuning.mass == h.mass
            &&& r.tuning.radius == Num::Thousandths(40)
        }),
{
    assert(sidecar::chains_view(none@) =~= Seq::empty());
    assert(r@.name == bone.name@);
}

/// The values of the shifting bodies without any source are 2 kg, stiffness 80, damping
/// 0.3 and 20 cm; with sources the hand-written one wins.
pub proof fn law_breast_tuning_is_resolved<R>(
    tuning: Option<Cc5BreastTuning>,
    soft: Option<Cc5SoftPhysics>,
    radius: Option<R>,
    r: BreastTuning<R>,
)
    requires
        call_ensures(secondary::resolve_breast_tuning::<R>, (tuning, soft, radius), r),
    ensures
        tuning is None && soft is None ==> {
            &&& r.mass == Num::Thousandths(2000)
            &&& r.stiffness == Stiffness::Given(Num::Thousandths(80000))
            &&& r.damping == Num::Thousandths(300)
        },
        tuning is None && radius is None ==> r.limit == StrayLimit::<R>::Given(
            Num::Thousandths(200),
        ),
        tuning is None ==> (radius matches Some(x) ==> r.limit == StrayLimit::SixTenthsOf(x)),
        tuning is None ==> (soft matches Some(s) ==> {
            &&& r.mass == s.mass
            &&& r.stiffness == Stiffness::Resonant(s.stiffness_freq_hz)
            &&& r.damping == s.damping
        }),
        tuning matches Some(t) ==> {
            &&& t.mass matches Some(x) ==> r.mass == x
            &&& t.linear_stiffness matches Some(x) ==> r.stiffness == Stiffness::Given(x)
            &&& t.linear_damping matches Some(x) ==> r.damping == x
            &&& t.translation_limit matches Some(x) ==> r.limit == StrayLimit::<R>::Given(x)
        },
{
}

/// A channel that is set by hand is driven alone, at the given amplitude; without one,
/// or with an empty name, the pose is as it was.
pub proof fn law_channel_set_by_hand<W>(
    pose: ArkitPose<W>,
    channel: Option<&str>,
    amp: W,
    r: ArkitPose<W>,
)
    requires
        call_ensures(morph::with_override::<W>, (pose, channel, amp), r),
    ensures
        r.pts_ms == pose.pts_ms,
        channel is None ==> r == pose,
        channel matches Some(name) ==> {
            &&& name@.len() == 0 ==> r == pose
            &&& name@.len() > 0 ==> r.weights@.len() == 1 && r.weights@[0].0@ == name@
                && r.weights@[0].1 == amp
        },
{
    if channel is Some && (channel->0)@.len() > 0 {
        let all = morph::weights_view(r.weights@);
        assert(all.len() == r.weights@.len());
        assert(all[0] == (r.weights@[0].0@, r.weights@[0].1));
    }
}

} // verus!
