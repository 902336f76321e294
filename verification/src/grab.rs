//! Grabbing: one state machine per hand, and the bookkeeping around them.
//!
//! A hand that is told to grab pursues its target until it is near enough or
//! the pursuit times out. Distances are measured by the caller; times are
//! nanoseconds.
use crate::props;
use crate::props::{FailureView, PropRegistry, RegistryView};
use crate::renderer::{GrabOrRelease, GrabSnapshot, Hand, PropSnapshot, SceneState};
use crate::text;
use vstd::prelude::*;
use vstd::string::*;

verus! {

/// What a hand is doing.
#[derive(Debug)]
pub enum GrabState<F> {
    Idle,
    Pursuing { target: String, elapsed_ns: u64, palm_override: Option<[F; 3]> },
    Attached { target: String, prop_entity: u64 },
}

/// What a hand is doing, as plain mathematics.
#[verifier::ext_equal]
pub enum StateView<F> {
    Idle,
    Pursuing { target: Seq<char>, elapsed: nat, palm: Option<[F; 3]> },
    Attached { target: Seq<char>, prop: u64 },
}

impl<F> View for GrabState<F> {
    type V = StateView<F>;

    open spec fn view(&self) -> StateView<F> {
        match *self {
            GrabState::Idle => StateView::Idle,
            GrabState::Pursuing { target, elapsed_ns, palm_override } => StateView::Pursuing {
                target: target@,
                elapsed: elapsed_ns as nat,
                palm: palm_override,
            },
            GrabState::Attached { target, prop_entity } => StateView::Attached {
                target: target@,
                prop: prop_entity,
            },
        }
    }
}

impl<F> Default for GrabState<F> {
    fn default() -> (r: Self)
        ensures
            r == GrabState::<F>::Idle,
    {
        GrabState::Idle
    }
}

/// Both hands.
#[derive(Debug)]
pub struct GrabFsms<F> {
    pub left: GrabState<F>,
    pub right: GrabState<F>,
}

impl<F> Default for GrabFsms<F> {
    fn default() -> (r: Self)
        ensures
            r.left == GrabState::<F>::Idle,
            r.right == GrabState::<F>::Idle,
    {
        GrabFsms { left: GrabState::Idle, right: GrabState::Idle }
    }
}

/// A command, as plain mathematics.
#[verifier::ext_equal]
pub enum CmdView<F> {
    Grab { hand: Hand, target: Seq<char>, palm: Option<[F; 3]> },
    Release { hand: Hand },
}

impl<F> View for GrabOrRelease<F> {
    type V = CmdView<F>;

    open spec fn view(&self) -> CmdView<F> {
        match *self {
            GrabOrRelease::Grab(g) => CmdView::Grab {
                hand: g.hand,
                target: g.target@,
                palm: g.palm_offset_override,
            },
            GrabOrRelease::Release(hand) => CmdView::Release { hand },
        }
    }
}

impl<F> CmdView<F> {
    /// The hand that the command is for.
    pub open spec fn hand(self) -> Hand {
        match self {
            CmdView::Grab { hand, .. } => hand,
            CmdView::Release { hand } => hand,
        }
    }
}

/// What becomes of a hand in one tick.
#[derive(Debug)]
pub enum FsmTransition<F> {
    NoChange,
    StartPursuit { target: String, palm_override: Option<[F; 3]> },
    Attach { target: String },
    DetachIdle,
    Failed { reason: String, target: String },
}

/// What becomes of a hand in one tick, as plain mathematics.
#[verifier::ext_equal]
pub enum TransView<F> {
    NoChange,
    StartPursuit { target: Seq<char>, palm: Option<[F; 3]> },
    Attach { target: Seq<char> },
    DetachIdle,
    Failed { reason: Seq<char>, target: Seq<char> },
}

impl<F> View for FsmTransition<F> {
    type V = TransView<F>;

    open spec fn view(&self) -> TransView<F> {
        match *self {
            FsmTransition::NoChange => TransView::NoChange,
            FsmTransition::StartPursuit { target, palm_override } => TransView::StartPursuit {
                target: target@,
                palm: palm_override,
            },
            FsmTransition::Attach { target } => TransView::Attach { target: target@ },
            FsmTransition::DetachIdle => TransView::DetachIdle,
            FsmTransition::Failed { reason, target } => TransView::Failed {
                reason: reason@,
                target: target@,
            },
        }
    }
}

/// One step of a hand: a command for this hand wins; else a pursuit ends at its
/// target or at its timeout, in this order.
pub open spec fn stepped<F>(
    state: StateView<F>,
    reached: bool,
    dt: nat,
    cmd: Option<CmdView<F>>,
    hand: Hand,
    timeout: nat,
) -> TransView<F> {
    match cmd {
        Some(CmdView::Grab { hand: h, target, palm }) if h == hand => TransView::StartPursuit {
            target,
            palm,
        },
        Some(CmdView::Release { hand: h }) if h == hand => TransView::DetachIdle,
        _ => match state {
            StateView::Idle => TransView::NoChange,
            StateView::Pursuing { target, elapsed, .. } => if reached {
                TransView::Attach { target }
            } else if elapsed + dt >= timeout {
                TransView::Failed { reason: "timeout"@, target }
            } else {
                TransView::NoChange
            },
            StateView::Attached { .. } => TransView::NoChange,
        },
    }
}

/// One step of a hand. `reached` says that the wrist is within reach of the
/// pursued prop.
pub fn step_fsm<F: Copy>(
    state: &GrabState<F>,
    reached: bool,
    dt_ns: u64,
    new_cmd: Option<&GrabOrRelease<F>>,
    hand: Hand,
    timeout_ns: u64,
) -> (r: FsmTransition<F>)
    ensures
        r@ == stepped(
            state@,
            reached,
            dt_ns as nat,
            match new_cmd {
                Some(c) => Some(c@),
                None => None,
            },
            hand,
            timeout_ns as nat,
        ),
{
    match new_cmd {
        Some(GrabOrRelease::Grab(g)) => {
            if g.hand == hand {
                return FsmTransition::StartPursuit {
                    target: g.target.clone(),
                    palm_override: g.palm_offset_override,
                };
            }
        },
        Some(GrabOrRelease::Release(h)) => {
            if *h == hand {
                return FsmTransition::DetachIdle;
            }
        },
        None => {},
    }
    match state {
        GrabState::Idle => FsmTransition::NoChange,
        GrabState::Pursuing { target, elapsed_ns, .. } => {
            if reached {
                FsmTransition::Attach { target: target.clone() }
            } else if *elapsed_ns as u128 + dt_ns as u128 >= timeout_ns as u128 {
                FsmTransition::Failed { reason: "timeout".to_owned(), target: target.clone() }
            } else {
                FsmTransition::NoChange
            }
        },
        GrabState::Attached { .. } => FsmTransition::NoChange,
    }
}

/// The latest command for a hand.
pub open spec fn latest<F>(cmds: Seq<CmdView<F>>, hand: Hand) -> Option<CmdView<F>>
    decreases cmds.len(),
{
    if cmds.len() == 0 {
        None
    } else if cmds.last().hand() == hand {
        Some(cmds.last())
    } else {
        latest(cmds.drop_last(), hand)
    }
}

/// The views of a list of commands.
pub open spec fn cmds_view<F>(cmds: Seq<GrabOrRelease<F>>) -> Seq<CmdView<F>> {
    cmds.map_values(|c: GrabOrRelease<F>| c@)
}

/// The latest command for a hand.
pub fn latest_cmd<F>(cmds: &Vec<GrabOrRelease<F>>, hand: Hand) -> (r: Option<&GrabOrRelease<F>>)
    ensures
        r is Some == latest(cmds_view(cmds@), hand) is Some,
        r matches Some(c) ==> Some(c@) == latest(cmds_view(cmds@), hand),
{
    let ghost all = cmds_view(cmds@);
    let mut n: usize = cmds.len();
    assert(all.take(n as int) =~= all);
    while n > 0
        invariant
            n <= cmds.len(),
            all == cmds_view(cmds@),
            latest(all, hand) == latest(all.take(n as int), hand),
        decreases n,
    {
        assert(all.take(n as int).last() == cmds@[n - 1]@);
        assert(all.take(n as int).drop_last() =~= all.take(n - 1));
        let h: Hand = match &cmds[n - 1] {
            GrabOrRelease::Grab(g) => g.hand,
            GrabOrRelease::Release(h) => *h,
        };
        if h == hand {
            return Some(&cmds[n - 1]);
        }
        n = n - 1;
    }
    None
}

/// What is to be done to the joint of a held prop.
#[derive(Clone, Copy, Debug)]
pub enum JointAction<F> {
    /// Let go of the prop.
    Release { prop: u64 },
    /// Fix the prop to the wrist, at this offset in the wrist's frame.
    Attach { prop: u64, wrist: u64, palm: [F; 3] },
}

/// Everything that one hand's transition does.
#[verifier::ext_equal]
pub struct Outcome<F> {
    pub state: StateView<F>,
    pub registry: RegistryView,
    pub actions: Seq<JointAction<F>>,
}

/// What is to be done when a hand leaves `state` for another target.
pub open spec fn letting_go<F>(state: StateView<F>) -> Seq<JointAction<F>> {
    match state {
        StateView::Attached { prop, .. } => seq![JointAction::Release { prop }],
        _ => Seq::empty(),
    }
}

/// A registry with one more failure.
pub open spec fn with_failure(
    registry: RegistryView,
    hand: Hand,
    target: Seq<char>,
    reason: Seq<char>,
) -> RegistryView {
    RegistryView { failures: registry.failures.push(FailureView { hand, target, reason }), ..registry }
}

/// The effect of a transition on a hand.
pub open spec fn applied<F>(
    state: StateView<F>,
    trans: TransView<F>,
    hand: Hand,
    registry: RegistryView,
    wrist: Option<u64>,
    palm_default: [F; 3],
    dt: nat,
) -> Outcome<F> {
    match trans {
        TransView::NoChange => Outcome {
            state: match state {
                StateView::Pursuing { target, elapsed, palm } => StateView::Pursuing {
                    target,
                    elapsed: if elapsed + dt <= u64::MAX {
                        elapsed + dt
                    } else {
                        u64::MAX as nat
                    },
                    palm,
                },
                _ => state,
            },
            registry,
            actions: Seq::empty(),
        },
        TransView::StartPursuit { target, palm } => Outcome {
            state: StateView::Pursuing { target, elapsed: 0, palm },
            registry,
            actions: letting_go(state),
        },
        TransView::Attach { target } => if !registry.by_id.dom().contains(target) {
            Outcome {
                state: StateView::Idle,
                registry: with_failure(registry, hand, target, "prop_not_found"@),
                actions: Seq::empty(),
            }
        } else {
            match wrist {
                None => Outcome {
                    state: StateView::Idle,
                    registry: with_failure(registry, hand, target, "wrist_not_found"@),
                    actions: Seq::empty(),
                },
                Some(w) => Outcome {
                    state: StateView::Attached { target, prop: registry.by_id[target] },
                    registry,
                    actions: seq![
                        JointAction::Attach {
                            prop: registry.by_id[target],
                            wrist: w,
                            palm: match state {
                                StateView::Pursuing { palm: Some(p), .. } => p,
                                _ => palm_default,
                            },
                        },
                    ],
                },
            }
        },
        TransView::DetachIdle => Outcome {
            state: StateView::Idle,
            registry,
            actions: letting_go(state),
        },
        TransView::Failed { reason, target } => Outcome {
            state: StateView::Idle,
            registry: with_failure(registry, hand, target, reason),
            actions: Seq::empty(),
        },
    }
}

/// Carries out a transition of a hand.
fn apply<F: Copy>(
    state: GrabState<F>,
    trans: FsmTransition<F>,
    hand: Hand,
    registry: &mut PropRegistry,
    wrist: Option<u64>,
    palm_default: [F; 3],
    dt_ns: u64,
    actions: &mut Vec<JointAction<F>>,
) -> (r: GrabState<F>)
    requires
        old(registry).wf(),
    ensures
        final(registry).wf(),
        ({
            let out = applied(
                state@,
                trans@,
                hand,
                old(registry)@,
                wrist,
                palm_default,
                dt_ns as nat,
            );
            &&& r@ == out.state
            &&& final(registry)@ == out.registry
            &&& final(actions)@ == old(actions)@ + out.actions
        }),
{
    let ghost acts = actions@;
    assert(acts + Seq::<JointAction<F>>::empty() =~= acts);
    match trans {
        FsmTransition::NoChange => match state {
            GrabState::Pursuing { target, elapsed_ns, palm_override } => GrabState::Pursuing {
                target,
                elapsed_ns: elapsed_ns.saturating_add(dt_ns),
                palm_override,
            },
            other => other,
        },
        FsmTransition::StartPursuit { target, palm_override } => {
            if let GrabState::Attached { prop_entity, .. } = &state {
                actions.push(JointAction::Release { prop: *prop_entity });
                assert(actions@ =~= acts + seq![JointAction::Release { prop: *prop_entity }]);
            }
            GrabState::Pursuing { target, elapsed_ns: 0, palm_override }
        },
        FsmTransition::Attach { target } => {
            let prop: u64 = match registry.get(target.as_str()) {
                Some(e) => e,
                None => {
                    registry.fail(hand, target, "prop_not_found");
                    return GrabState::Idle;
                },
            };
            let wrist: u64 = match wrist {
                Some(w) => w,
                None => {
                    registry.fail(hand, target, "wrist_not_found");
                    return GrabState::Idle;
                },
            };
            let palm: [F; 3] = match &state {
                GrabState::Pursuing { palm_override, .. } => match palm_override {
                    Some(p) => *p,
                    None => palm_default,
                },
                _ => palm_default,
            };
            actions.push(JointAction::Attach { prop, wrist, palm });
            assert(actions@ =~= acts + seq![JointAction::Attach { prop, wrist, palm }]);
            GrabState::Attached { target, prop_entity: prop }
        },
        FsmTransition::DetachIdle => {
            if let GrabState::Attached { prop_entity, .. } = &state {
                actions.push(JointAction::Release { prop: *prop_entity });
                assert(actions@ =~= acts + seq![JointAction::Release { prop: *prop_entity }]);
            }
            GrabState::Idle
        },
        FsmTransition::Failed { reason, target } => {
            registry.fail(hand, target, reason.as_str());
            GrabState::Idle
        },
    }
}

/// What is known of one hand in a tick.
#[derive(Clone, Copy, Debug, PartialEq, Eq, Structural)]
pub struct HandReport {
    /// The wrist is within reach of the prop that the hand pursues.
    pub reached: bool,
    /// The collider of the wrist.
    pub wrist: Option<u64>,
}

/// One whole tick of one hand.
pub open spec fn handled<F>(
    state: StateView<F>,
    hand: Hand,
    cmds: Seq<CmdView<F>>,
    registry: RegistryView,
    report: HandReport,
    palm_default: [F; 3],
    dt: nat,
    timeout: nat,
) -> Outcome<F> {
    applied(
        state,
        stepped(state, report.reached, dt, latest(cmds, hand), hand, timeout),
        hand,
        registry,
        report.wrist,
        palm_default,
        dt,
    )
}

/// Runs both hands for one tick, left before right: of the commands for a hand
/// the latest counts. Returns what is to be done to the joints, in order.
pub fn handle_grab_cmds<F: Copy>(
    fsms: &mut GrabFsms<F>,
    registry: &mut PropRegistry,
    cmds: &Vec<GrabOrRelease<F>>,
    left: HandReport,
    right: HandReport,
    palm_default: [F; 3],
    dt_ns: u64,
    timeout_ns: u64,
) -> (actions: Vec<JointAction<F>>)
    requires
        old(registry).wf(),
    ensures
        final(registry).wf(),
        ({
            let l = handled(
                old(fsms).left@,
                Hand::Left,
                cmds_view(cmds@),
                old(registry)@,
                left,
                palm_default,
                dt_ns as nat,
                timeout_ns as nat,
            );
            let r = handled(
                old(fsms).right@,
                Hand::Right,
                cmds_view(cmds@),
                l.registry,
                right,
                palm_default,
                dt_ns as nat,
                timeout_ns as nat,
            );
            &&& final(fsms).left@ == l.state
            &&& final(fsms).right@ == r.state
            &&& final(registry)@ == r.registry
            &&& actions@ == l.actions + r.actions
        }),
{
    let mut actions: Vec<JointAction<F>> = Vec::new();
    let left_trans: FsmTransition<F> = step_fsm(
        &fsms.left,
        left.reached,
        dt_ns,
        latest_cmd(cmds, Hand::Left),
        Hand::Left,
        timeout_ns,
    );
    let right_trans: FsmTransition<F> = step_fsm(
        &fsms.right,
        right.reached,
        dt_ns,
        latest_cmd(cmds, Hand::Right),
        Hand::Right,
        timeout_ns,
    );
    let left_state: GrabState<F> = take_state(&mut fsms.left);
    fsms.left = apply(
        left_state,
        left_trans,
        Hand::Left,
        registry,
        left.wrist,
        palm_default,
        dt_ns,
        &mut actions,
    );
    let right_state: GrabState<F> = take_state(&mut fsms.right);
    fsms.right = apply(
        right_state,
        right_trans,
        Hand::Right,
        registry,
        right.wrist,
        palm_default,
        dt_ns,
        &mut actions,
    );
    actions
}

/// Takes a state out of its place and leaves an idle one.
fn take_state<F>(state: &mut GrabState<F>) -> (r: GrabState<F>)
    ensures
        r == *old(state),
        *final(state) == GrabState::<F>::Idle,
{
    let mut out: GrabState<F> = GrabState::Idle;
    std::mem::swap(state, &mut out);
    out
}

/// A hand holds this prop.
pub open spec fn holds<F>(state: StateView<F>, id: Seq<char>) -> bool {
    state matches StateView::Attached { target, .. } && target == id
}

/// Whether a hand holds this prop.
fn is_holding<F>(state: &GrabState<F>, id: &str) -> (r: bool)
    ensures
        r == holds(state@, id@),
{
    match state {
        GrabState::Attached { target, .. } => text::same(target.as_str(), id),
        _ => false,
    }
}

/// The hand that holds a prop; the left one where both do.
pub open spec fn holder<F>(fsms: GrabFsms<F>, target: Seq<char>) -> Option<Hand> {
    if holds(fsms.left@, target) {
        Some(Hand::Left)
    } else if holds(fsms.right@, target) {
        Some(Hand::Right)
    } else {
        None
    }
}

/// The hand that holds a prop; the left one where both do.
pub fn attached_hand_for<F>(fsms: &GrabFsms<F>, target: &str) -> (r: Option<Hand>)
    ensures
        r == holder(*fsms, target@),
{
    if is_holding(&fsms.left, target) {
        Some(Hand::Left)
    } else if is_holding(&fsms.right, target) {
        Some(Hand::Right)
    } else {
        None
    }
}

/// What a hand does once the prop it may hold is gone.
pub open spec fn let_go<F>(state: GrabState<F>, id: Seq<char>) -> GrabState<F> {
    if holds(state@, id) {
        GrabState::Idle
    } else {
        state
    }
}

/// The registry after the failures that the loss of a prop causes: one for each
/// hand that holds it, left before right.
pub open spec fn with_losses<F>(
    fsms: GrabFsms<F>,
    registry: RegistryView,
    id: Seq<char>,
) -> RegistryView {
    let after_left = if holds(fsms.left@, id) {
        with_failure(registry, Hand::Left, id, "prop_replaced"@)
    } else {
        registry
    };
    if holds(fsms.right@, id) {
        with_failure(after_left, Hand::Right, id, "prop_replaced"@)
    } else {
        after_left
    }
}

/// Makes room for a prop of this id. A prop that has the id already leaves: its
/// entity is returned, to be removed from the scene, and every hand that holds it
/// lets go with a failure.
pub fn displace_prop<F>(
    fsms: &mut GrabFsms<F>,
    registry: &mut PropRegistry,
    id: &str,
) -> (r: Option<u64>)
    requires
        old(registry).wf(),
    ensures
        final(registry).wf(),
        final(registry)@.by_id == old(registry)@.by_id.remove(id@),
        old(registry)@.by_id.dom().contains(id@) ==> ({
            &&& r == Some(old(registry)@.by_id[id@])
            &&& final(fsms).left == let_go(old(fsms).left, id@)
            &&& final(fsms).right == let_go(old(fsms).right, id@)
            &&& final(registry)@.failures == with_losses(
                *old(fsms),
                old(registry)@,
                id@,
            ).failures
        }),
        !old(registry)@.by_id.dom().contains(id@) ==> r is None && final(registry)@.failures == old(
            registry,
        )@.failures && *final(fsms) == *old(fsms),
{
    match registry.remove(id) {
        Some(existing) => {
            if is_holding(&fsms.left, id) {
                registry.fail(Hand::Left, id.to_owned(), "prop_replaced");
                fsms.left = GrabState::Idle;
            }
            if is_holding(&fsms.right, id) {
                registry.fail(Hand::Right, id.to_owned(), "prop_replaced");
                fsms.right = GrabState::Idle;
            }
            Some(existing)
        },
        None => None,
    }
}

/// A prop that is replaced is in no hand afterwards, each hand that held it has
/// failed once, and a hand that did not hold it goes on as before.
pub proof fn law_replaced_prop_is_released<F>(
    fsms: GrabFsms<F>,
    registry: RegistryView,
    id: Seq<char>,
)
    ensures
        !holds(let_go(fsms.left, id)@, id),
        !holds(let_go(fsms.right, id)@, id),
        !holds(fsms.left@, id) ==> let_go(fsms.left, id) == fsms.left,
        !holds(fsms.right@, id) ==> let_go(fsms.right, id) == fsms.right,
        with_losses(fsms, registry, id).by_id == registry.by_id,
        with_losses(fsms, registry, id).failures.len() == registry.failures.len() + (if holds(
            fsms.left@,
            id,
        ) {
            1int
        } else {
            0
        }) + (if holds(fsms.right@, id) {
            1int
        } else {
            0
        }),
        holder(fsms, id) is None ==> with_losses(fsms, registry, id) == registry,
{
}

/// The props that hands hold, left before right.
pub open spec fn held<F>(fsms: GrabFsms<F>) -> Seq<(Hand, Seq<char>)> {
    let left = match fsms.left@ {
        StateView::Attached { target, .. } => seq![(Hand::Left, target)],
        _ => Seq::empty(),
    };
    let right = match fsms.right@ {
        StateView::Attached { target, .. } => seq![(Hand::Right, target)],
        _ => Seq::empty(),
    };
    left + right
}

/// The contents of a list of grabs.
pub open spec fn grabs_view(v: Seq<GrabSnapshot>) -> Seq<(Hand, Seq<char>)> {
    v.map_values(|g: GrabSnapshot| (g.hand, g.prop@))
}

/// What to report about the scene: nothing where there is no prop, no held prop
/// and no failure; else everything, each failure once.
pub fn publish_scene_state<F>(
    registry: &mut PropRegistry,
    fsms: &GrabFsms<F>,
    props: Vec<PropSnapshot<F>>,
    last_pts: Option<u64>,
) -> (r: Option<SceneState<F>>)
    ensures
        final(registry).wf() == old(registry).wf(),
        final(registry)@.by_id == old(registry)@.by_id,
        final(registry)@.failures.len() == 0,
        r is None == (props@.len() == 0 && held(*fsms).len() == 0 && old(registry)@.failures.len()
            == 0),
        r matches Some(s) ==> {
            &&& s.props@ == props@
            &&& grabs_view(s.grabs@) == held(*fsms)
            &&& props::failures_view(s.failed_grabs@) == old(registry)@.failures
            &&& s.pts_ms == (match last_pts {
                Some(p) => p,
                None => 0,
            })
        },
{
    let mut grabs: Vec<GrabSnapshot> = Vec::new();
    if let GrabState::Attached { target, .. } = &fsms.left {
        grabs.push(GrabSnapshot { hand: Hand::Left, prop: target.clone() });
    }
    if let GrabState::Attached { target, .. } = &fsms.right {
        grabs.push(GrabSnapshot { hand: Hand::Right, prop: target.clone() });
    }
    assert(grabs_view(grabs@) =~= held(*fsms));
    if props.len() == 0 && grabs.len() == 0 && !registry.has_failures() {
        return None;
    }
    let failed_grabs = registry.take_failures();
    let pts_ms: u64 = match last_pts {
        Some(p) => p,
        None => 0,
    };
    Some(SceneState { props, grabs, failed_grabs, pts_ms })
}

/// A hand ignores the commands for the other hand.
pub proof fn law_other_hand_ignored<F>(
    state: StateView<F>,
    reached: bool,
    dt: nat,
    cmd: CmdView<F>,
    hand: Hand,
    timeout: nat,
)
    requires
        cmd.hand() != hand,
    ensures
        stepped(state, reached, dt, Some(cmd), hand, timeout) == stepped(
            state,
            reached,
            dt,
            None,
            hand,
            timeout,
        ),
{
}

/// Of the commands for a hand the latest counts, and the others do not matter.
pub proof fn law_latest_wins<F>(cmds: Seq<CmdView<F>>, cmd: CmdView<F>, hand: Hand)
    ensures
        latest(cmds.push(cmd), hand) == (if cmd.hand() == hand {
            Some(cmd)
        } else {
            latest(cmds, hand)
        }),
{
    assert(cmds.push(cmd).drop_last() =~= cmds);
}

/// A command for one hand leaves the other hand's tick as it was.
pub proof fn law_hands_are_independent<F>(cmds: Seq<CmdView<F>>, other: CmdView<F>, hand: Hand)
    requires
        other.hand() != hand,
    ensures
        latest(cmds.push(other), hand) == latest(cmds, hand),
{
    law_latest_wins(cmds, other, hand);
}

/// A release always leaves the hand idle, and lets go of a prop exactly where
/// one was held.
pub proof fn law_release_frees<F>(
    state: StateView<F>,
    reached: bool,
    hand: Hand,
    registry: RegistryView,
    wrist: Option<u64>,
    palm_default: [F; 3],
    dt: nat,
    timeout: nat,
)
    ensures
        ({
            let trans = stepped(
                state,
                reached,
                dt,
                Some(CmdView::<F>::Release { hand }),
                hand,
                timeout,
            );
            let out = applied(state, trans, hand, registry, wrist, palm_default, dt);
            &&& out.state == StateView::<F>::Idle
            &&& out.registry == registry
            &&& out.actions.len() == (if state is Attached {
                1nat
            } else {
                0nat
            })
        }),
{
}

/// Total of a series of tick lengths.
pub open spec fn total(ticks: Seq<nat>) -> nat
    decreases ticks.len(),
{
    if ticks.len() == 0 {
        0
    } else {
        total(ticks.drop_last()) + ticks.last()
    }
}

/// A hand after a series of undisturbed ticks out of reach of its target.
pub open spec fn drifted<F>(
    state: StateView<F>,
    hand: Hand,
    registry: RegistryView,
    wrist: Option<u64>,
    palm_default: [F; 3],
    ticks: Seq<nat>,
    timeout: nat,
) -> (StateView<F>, RegistryView)
    decreases ticks.len(),
{
    if ticks.len() == 0 {
        (state, registry)
    } else {
        let (s, r) = drifted(
            state,
            hand,
            registry,
            wrist,
            palm_default,
            ticks.drop_last(),
            timeout,
        );
        let out = applied(
            s,
            stepped(s, false, ticks.last(), None, hand, timeout),
            hand,
            r,
            wrist,
            palm_default,
            ticks.last(),
        );
        (out.state, out.registry)
    }
}

/// A fresh pursuit that never reaches its target goes on for exactly as long as
/// its time has not run out; then it ends with one failure, a timeout.
pub proof fn law_pursuit_times_out<F>(
    target: Seq<char>,
    palm: Option<[F; 3]>,
    hand: Hand,
    registry: RegistryView,
    wrist: Option<u64>,
    palm_default: [F; 3],
    ticks: Seq<nat>,
    timeout: nat,
)
    requires
        timeout <= u64::MAX,
    ensures
        ({
            let start = StateView::<F>::Pursuing { target, elapsed: 0, palm };
            let (s, r) = drifted(start, hand, registry, wrist, palm_default, ticks, timeout);
            if total(ticks) < timeout || ticks.len() == 0 {
                s == (StateView::<F>::Pursuing { target, elapsed: total(ticks), palm }) && r
                    == registry
            } else {
                s == StateView::<F>::Idle && r == with_failure(registry, hand, target, "timeout"@)
            }
        }),
    decreases ticks.len(),
{
    if ticks.len() > 0 {
        law_pursuit_times_out(
            target,
            palm,
            hand,
            registry,
            wrist,
            palm_default,
            ticks.drop_last(),
            timeout,
        );
    }
}

/// A hand that holds a prop keeps it through every tick without a command.
pub proof fn law_held_is_kept<F>(
    target: Seq<char>,
    prop: u64,
    reached: bool,
    hand: Hand,
    registry: RegistryView,
    wrist: Option<u64>,
    palm_default: [F; 3],
    dt: nat,
    timeout: nat,
)
    ensures
        ({
            let s = StateView::<F>::Attached { target, prop };
            applied(
                s,
                stepped(s, reached, dt, None, hand, timeout),
                hand,
                registry,
                wrist,
                palm_default,
                dt,
            ) == (Outcome { state: s, registry, actions: Seq::empty() })
        }),
{
}

} // verus!
