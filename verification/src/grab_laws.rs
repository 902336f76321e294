//! What holds of grabbing, told by commands, reports and what is done to the joints.
use crate::grab;
use crate::grab::{
    CmdView, FsmTransition, GrabFsms, GrabState, HandReport, JointAction, StateView, TransView,
};
use crate::props;
use crate::props::{FailureView, RegistryView};
use crate::renderer::{GrabCmd, GrabFailure, GrabOrRelease, Hand};
use vstd::prelude::*;

verus! {

/// What one hand meets in one tick.
pub struct HandTick<F> {
    /// The commands of the tick, for either hand.
    pub cmds: Seq<GrabOrRelease<F>>,
    pub registry: RegistryView,
    pub report: HandReport,
    pub dt: nat,
}

/// The hand that a command is for.
pub open spec fn addressee<F>(cmd: GrabOrRelease<F>) -> Hand {
    match cmd {
        GrabOrRelease::Grab(g) => g.hand,
        GrabOrRelease::Release(h) => h,
    }
}

/// No command from number `k` on is for this hand.
pub open spec fn quiet_from<F>(cmds: Seq<GrabOrRelease<F>>, hand: Hand, k: int) -> bool {
    forall|j: int| k <= j < cmds.len() ==> addressee(#[trigger] cmds[j]) != hand
}

/// What a tick does to a hand.
pub open spec fn ticked<F>(
    state: StateView<F>,
    hand: Hand,
    tick: HandTick<F>,
    palm_default: [F; 3],
    timeout: nat,
) -> grab::Outcome<F> {
    grab::handled(
        state,
        hand,
        grab::cmds_view(tick.cmds),
        tick.registry,
        tick.report,
        palm_default,
        tick.dt,
        timeout,
    )
}

/// A hand after a series of ticks.
pub open spec fn ticked_on<F>(
    state: StateView<F>,
    hand: Hand,
    ticks: Seq<HandTick<F>>,
    palm_default: [F; 3],
    timeout: nat,
) -> StateView<F>
    decreases ticks.len(),
{
    if ticks.len() == 0 {
        state
    } else {
        ticked(
            ticked_on(state, hand, ticks.drop_last(), palm_default, timeout),
            hand,
            ticks.last(),
            palm_default,
            timeout,
        ).state
    }
}

/// How long a series of ticks lasts.
pub open spec fn lasting<F>(ticks: Seq<HandTick<F>>) -> nat
    decreases ticks.len(),
{
    if ticks.len() == 0 {
        0
    } else {
        lasting(ticks.drop_last()) + ticks.last().dt
    }
}

/// Ticks without a command for the hand and out of reach of what it pursues.
pub open spec fn undisturbed<F>(ticks: Seq<HandTick<F>>, hand: Hand) -> bool {
    forall|i: int|
        0 <= i < ticks.len() ==> quiet_from((#[trigger] ticks[i]).cmds, hand, 0)
            && !ticks[i].report.reached
}

/// The latest command for a hand is the last in the list that is for it; without any
/// such command there is none.
pub proof fn law_latest_command<F>(cmds: Seq<GrabOrRelease<F>>, hand: Hand, k: int)
    requires
        quiet_from(cmds, hand, k + 1),
        -1 <= k < cmds.len(),
        k >= 0 ==> addressee(cmds[k]) == hand,
    ensures
        k < 0 ==> grab::latest(grab::cmds_view(cmds), hand) is None,
        k >= 0 ==> grab::latest(grab::cmds_view(cmds), hand) == Some(cmds[k]@),
    decreases cmds.len(),
{
    let all = grab::cmds_view(cmds);
    if cmds.len() > 0 {
        let n = cmds.len() - 1;
        assert(all.last() == cmds[n]@);
        assert(all.last().hand() == addressee(cmds[n]));
        if k < n {
            assert(addressee(cmds[n]) != hand);
            assert(all.drop_last() =~= grab::cmds_view(cmds.drop_last()));
            assert forall|j: int| k + 1 <= j < cmds.drop_last().len() implies addressee(
                #[trigger] cmds.drop_last()[j],
            ) != hand by {
                assert(cmds.drop_last()[j] == cmds[j]);
            }
            law_latest_command(cmds.drop_last(), hand, k);
        }
    }
}

/// What a pursuit is in the midst of undisturbed ticks short of the timeout.
proof fn lemma_pursuit_goes_on<F>(
    target: Seq<char>,
    palm: Option<[F; 3]>,
    hand: Hand,
    ticks: Seq<HandTick<F>>,
    palm_default: [F; 3],
    timeout: nat,
)
    requires
        undisturbed(ticks, hand),
        lasting(ticks) < timeout || ticks.len() == 0,
        timeout <= u64::MAX,
    ensures
        ticked_on(
            StateView::<F>::Pursuing { target, elapsed: 0, palm },
            hand,
            ticks,
            palm_default,
            timeout,
        ) == (StateView::<F>::Pursuing { target, elapsed: lasting(ticks), palm }),
    decreases ticks.len(),
{
    if ticks.len() > 0 {
        let init = ticks.drop_last();
        assert forall|i: int| 0 <= i < init.len() implies quiet_from(
            (#[trigger] init[i]).cmds,
            hand,
            0,
        ) && !init[i].report.reached by {
            assert(init[i] == ticks[i]);
        }
        lemma_pursuit_goes_on(target, palm, hand, init, palm_default, timeout);
        let tick = ticks[ticks.len() - 1];
        law_latest_command(tick.cmds, hand, -1);
    }
}

/// A hand whose latest command is to grab a prop, and which then, after any
/// undisturbed ticks short of the timeout, comes within reach while prop and wrist
/// are known, fixes that prop to that wrist and holds it: at the palm offset of the
/// command, and at the default where the command has none.
pub proof fn law_prop_is_held_where_asked<F>(
    state: StateView<F>,
    hand: Hand,
    start: HandTick<F>,
    k: int,
    g: GrabCmd<F>,
    waits: Seq<HandTick<F>>,
    reach: HandTick<F>,
    wrist: u64,
    palm_default: [F; 3],
    timeout: nat,
)
    requires
        0 <= k < start.cmds.len(),
        start.cmds[k] == GrabOrRelease::Grab(g),
        g.hand == hand,
        quiet_from(start.cmds, hand, k + 1),
        undisturbed(waits, hand),
        lasting(waits) < timeout || waits.len() == 0,
        timeout <= u64::MAX,
        quiet_from(reach.cmds, hand, 0),
        reach.report.reached,
        reach.report.wrist == Some(wrist),
        reach.registry.by_id.dom().contains(g.target@),
    ensures
        ({
            let begun = ticked(state, hand, start, palm_default, timeout);
            let near = ticked_on(begun.state, hand, waits, palm_default, timeout);
            let end = ticked(near, hand, reach, palm_default, timeout);
            let prop = reach.registry.by_id[g.target@];
            &&& end.actions.len() == 1
            &&& g.palm_offset_override matches Some(p) ==> end.actions[0] == (JointAction::Attach {
                prop,
                wrist,
                palm: p,
            })
            &&& g.palm_offset_override is None ==> end.actions[0] == (JointAction::Attach {
                prop,
                wrist,
                palm: palm_default,
            })
            &&& end.state == (StateView::<F>::Attached { target: g.target@, prop })
            &&& end.registry == reach.registry
        }),
{
    law_latest_command(start.cmds, hand, k);
    let begun = ticked(state, hand, start, palm_default, timeout);
    assert(begun.state == (StateView::<F>::Pursuing {
        target: g.target@,
        elapsed: 0,
        palm: g.palm_offset_override,
    }));
    lemma_pursuit_goes_on(
        g.target@,
        g.palm_offset_override,
        hand,
        waits,
        palm_default,
        timeout,
    );
    law_latest_command(reach.cmds, hand, -1);
}

/// A hand that comes within reach of a prop that is gone, or without a wrist, gives
/// up: it is idle, fixes nothing, and one failure that names hand, prop and reason
/// is noted.
pub proof fn law_reach_can_fail<F>(
    target: Seq<char>,
    elapsed: nat,
    palm: Option<[F; 3]>,
    hand: Hand,
    reach: HandTick<F>,
    palm_default: [F; 3],
    timeout: nat,
)
    requires
        quiet_from(reach.cmds, hand, 0),
        reach.report.reached,
        !reach.registry.by_id.dom().contains(target) || reach.report.wrist is None,
    ensures
        ({
            let end = ticked(
                StateView::<F>::Pursuing { target, elapsed, palm },
                hand,
                reach,
                palm_default,
                timeout,
            );
            let n = reach.registry.failures.len() as int;
            &&& end.state is Idle
            &&& end.actions.len() == 0
            &&& end.registry.by_id == reach.registry.by_id
            &&& end.registry.failures.len() == n + 1
            &&& end.registry.failures.take(n) == reach.registry.failures
            &&& end.registry.failures[n].hand == hand
            &&& end.registry.failures[n].target == target
            &&& !reach.registry.by_id.dom().contains(target) ==> end.registry.failures[n].reason
                == "prop_not_found"@
            &&& reach.registry.by_id.dom().contains(target) ==> end.registry.failures[n].reason
                == "wrist_not_found"@
        }),
{
    law_latest_command(reach.cmds, hand, -1);
    let end = ticked(
        StateView::<F>::Pursuing { target, elapsed, palm },
        hand,
        reach,
        palm_default,
        timeout,
    );
    let n = reach.registry.failures.len() as int;
    assert(end.registry.failures.take(n) =~= reach.registry.failures);
}

/// A pursuit out of reach goes on, a tick older and otherwise as it was, while its
/// time has not run out; once it has, the hand gives up with one failure, a timeout.
pub proof fn law_pursuit_ages<F>(
    target: Seq<char>,
    elapsed: nat,
    palm: Option<[F; 3]>,
    hand: Hand,
    tick: HandTick<F>,
    palm_default: [F; 3],
    timeout: nat,
)
    requires
        quiet_from(tick.cmds, hand, 0),
        !tick.report.reached,
        timeout <= u64::MAX,
    ensures
        ({
            let end = ticked(
                StateView::<F>::Pursuing { target, elapsed, palm },
                hand,
                tick,
                palm_default,
                timeout,
            );
            let n = tick.registry.failures.len() as int;
            &&& end.actions.len() == 0
            &&& end.registry.by_id == tick.registry.by_id
            &&& elapsed + tick.dt < timeout ==> end.state == (StateView::<F>::Pursuing {
                target,
                elapsed: elapsed + tick.dt,
                palm,
            }) && end.registry.failures == tick.registry.failures
            &&& elapsed + tick.dt >= timeout ==> {
                &&& end.state is Idle
                &&& end.registry.failures.len() == n + 1
                &&& end.registry.failures.take(n) == tick.registry.failures
                &&& end.registry.failures[n].hand == hand
                &&& end.registry.failures[n].target == target
                &&& end.registry.failures[n].reason == "timeout"@
            }
        }),
{
    law_latest_command(tick.cmds, hand, -1);
    let end = ticked(
        StateView::<F>::Pursuing { target, elapsed, palm },
        hand,
        tick,
        palm_default,
        timeout,
    );
    let n = tick.registry.failures.len() as int;
    if elapsed + tick.dt >= timeout {
        assert(end.registry.failures.take(n) =~= tick.registry.failures);
    }
}

/// A command to grab starts a fresh pursuit at once, and one to release leaves the
/// hand idle; either lets go of the very prop that the hand holds, and of nothing
/// where it holds none. Neither notes a failure.
pub proof fn law_command_lets_go<F>(
    state: StateView<F>,
    hand: Hand,
    tick: HandTick<F>,
    k: int,
    palm_default: [F; 3],
    timeout: nat,
)
    requires
        0 <= k < tick.cmds.len(),
        addressee(tick.cmds[k]) == hand,
        quiet_from(tick.cmds, hand, k + 1),
    ensures
        ({
            let end = ticked(state, hand, tick, palm_default, timeout);
            &&& end.registry == tick.registry
            &&& state matches StateView::Attached { prop, .. } ==> end.actions.len() == 1
                && end.actions[0] == (JointAction::<F>::Release { prop })
            &&& !(state is Attached) ==> end.actions.len() == 0
            &&& tick.cmds[k] matches GrabOrRelease::Grab(g) ==> end.state == (StateView::<F>::Pursuing {
                target: g.target@,
                elapsed: 0,
                palm: g.palm_offset_override,
            })
            &&& tick.cmds[k] matches GrabOrRelease::Release(_) ==> end.state is Idle
        }),
{
    law_latest_command(tick.cmds, hand, k);
}

/// Without a command an idle hand stays idle and a hand keeps what it holds, near or
/// far, and nothing is done.
pub proof fn law_idle_and_holding_hands_stay<F>(
    state: StateView<F>,
    hand: Hand,
    tick: HandTick<F>,
    palm_default: [F; 3],
    timeout: nat,
)
    requires
        quiet_from(tick.cmds, hand, 0),
        !(state is Pursuing),
    ensures
        ticked(state, hand, tick, palm_default, timeout).state == state,
        ticked(state, hand, tick, palm_default, timeout).actions.len() == 0,
        ticked(state, hand, tick, palm_default, timeout).registry == tick.registry,
{
    law_latest_command(tick.cmds, hand, -1);
}

/// What a step of a hand answers: a command for it first, then reach, then time.
pub proof fn law_step_answers<F>(
    cmd: Option<CmdView<F>>,
    target: Seq<char>,
    elapsed: nat,
    palm: Option<[F; 3]>,
    any: StateView<F>,
    g: GrabCmd<F>,
    hand: Hand,
    reached: bool,
    dt: nat,
    timeout: nat,
)
    requires
        cmd matches Some(CmdView::Grab { hand: h, .. }) ==> h != hand,
        cmd matches Some(CmdView::Release { hand: h }) ==> h != hand,
        g.hand == hand,
    ensures
        ({
            let pursuing = StateView::<F>::Pursuing { target, elapsed, palm };
            &&& grab::stepped(pursuing, true, dt, cmd, hand, timeout) == (TransView::<F>::Attach {
                target,
            })
            &&& elapsed + dt >= timeout ==> grab::stepped(pursuing, false, dt, cmd, hand, timeout)
                == (TransView::<F>::Failed { reason: "timeout"@, target })
            &&& elapsed + dt < timeout ==> grab::stepped(pursuing, false, dt, cmd, hand, timeout)
                is NoChange
            &&& !(any is Pursuing) ==> grab::stepped(any, reached, dt, cmd, hand, timeout)
                is NoChange
            &&& grab::stepped(
                any,
                reached,
                dt,
                Some(GrabOrRelease::<F>::Grab(g)@),
                hand,
                timeout,
            ) == (TransView::<F>::StartPursuit {
                target: g.target@,
                palm: g.palm_offset_override,
            })
            &&& grab::stepped(
                any,
                reached,
                dt,
                Some(GrabOrRelease::<F>::Release(hand)@),
                hand,
                timeout,
            ) is DetachIdle
        }),
{
}

/// States, steps and failures are spoken of by exactly what they hold.
pub proof fn law_views_are_faithful<F>(
    target: String,
    reason: String,
    elapsed_ns: u64,
    prop_entity: u64,
    palm_override: Option<[F; 3]>,
    failures: Seq<GrabFailure>,
    i: int,
)
    requires
        0 <= i < failures.len(),
    ensures
        GrabState::<F>::Idle@ is Idle,
        (GrabState::<F>::Pursuing { target, elapsed_ns, palm_override })@ == (StateView::<F>::Pursuing {
            target: target@,
            elapsed: elapsed_ns as nat,
            palm: palm_override,
        }),
        (GrabState::<F>::Attached { target, prop_entity })@ == (StateView::<F>::Attached {
            target: target@,
            prop: prop_entity,
        }),
        FsmTransition::<F>::NoChange@ is NoChange,
        FsmTransition::<F>::DetachIdle@ is DetachIdle,
        (FsmTransition::<F>::Attach { target })@ == (TransView::<F>::Attach { target: target@ }),
        (FsmTransition::<F>::StartPursuit { target, palm_override })@ == (TransView::<F>::StartPursuit { target: target@, palm: palm_override }),
        (FsmTransition::<F>::Failed { reason, target })@ == (TransView::<F>::Failed {
            reason: reason@,
            target: target@,
        }),
        props::failures_view(failures).len() == failures.len(),
        props::failures_view(failures)[i] == (FailureView {
            hand: failures[i].hand,
            target: failures[i].target@,
            reason: failures[i].reason@,
        }),
{
}

/// A hand holds a prop when it is attached to it by name, and the left hand is named
/// where both hold it.
pub proof fn law_holder<F>(fsms: GrabFsms<F>, id: Seq<char>)
    ensures
        ({
            let left = fsms.left matches GrabState::Attached { target, .. } && target@ == id;
            let right = fsms.right matches GrabState::Attached { target, .. } && target@ == id;
            &&& grab::holds(fsms.left@, id) == left
            &&& grab::holds(fsms.right@, id) == right
            &&& left ==> grab::holder(fsms, id) == Some(Hand::Left)
            &&& !left && right ==> grab::holder(fsms, id) == Some(Hand::Right)
            &&& !left && !right ==> grab::holder(fsms, id) is None
            &&& grab::let_go(fsms.left, id) == if left {
                GrabState::<F>::Idle
            } else {
                fsms.left
            }
            &&& grab::let_go(fsms.right, id) == if right {
                GrabState::<F>::Idle
            } else {
                fsms.right
            }
        }),
{
}

/// Each hand that holds a prop which is replaced notes one failure, the left before
/// the right, behind the failures that wait already.
pub proof fn law_replacement_is_noted<F>(
    fsms: GrabFsms<F>,
    registry: RegistryView,
    id: Seq<char>,
)
    ensures
        ({
            let left = fsms.left matches GrabState::Attached { target, .. } && target@ == id;
            let right = fsms.right matches GrabState::Attached { target, .. } && target@ == id;
            let by_left = FailureView { hand: Hand::Left, target: id, reason: "prop_replaced"@ };
            let by_right = FailureView { hand: Hand::Right, target: id, reason: "prop_replaced"@ };
            let after = grab::with_losses(fsms, registry, id).failures;
            &&& left && right ==> after == registry.failures + seq![by_left, by_right]
            &&& left && !right ==> after == registry.failures + seq![by_left]
            &&& !left && right ==> after == registry.failures + seq![by_right]
            &&& !left && !right ==> after == registry.failures
        }),
{
    let by_left = FailureView { hand: Hand::Left, target: id, reason: "prop_replaced"@ };
    let by_right = FailureView { hand: Hand::Right, target: id, reason: "prop_replaced"@ };
    let old = registry.failures;
    let after = grab::with_losses(fsms, registry, id).failures;
    assert(old.push(by_left).push(by_right) =~= old + seq![by_left, by_right]);
    assert(old.push(by_left) =~= old + seq![by_left]);
    assert(old.push(by_right) =~= old + seq![by_right]);
}

/// What is reported as held: what each hand is attached to, the left hand first.
pub proof fn law_held_props<F>(fsms: GrabFsms<F>)
    ensures
        (fsms.left matches GrabState::Attached { target: l, .. } ==> {
            &&& grab::held(fsms).len() >= 1
            &&& grab::held(fsms)[0] == (Hand::Left, l@)
            &&& fsms.right matches GrabState::Attached { target: r, .. } ==> grab::held(fsms).len()
                == 2 && grab::held(fsms)[1] == (Hand::Right, r@)
            &&& !(fsms.right is Attached) ==> grab::held(fsms).len() == 1
        }),
        !(fsms.left is Attached) ==> {
            &&& fsms.right matches GrabState::Attached { target: r, .. } ==> grab::held(fsms).len()
                == 1 && grab::held(fsms)[0] == (Hand::Right, r@)
            &&& !(fsms.right is Attached) ==> grab::held(fsms).len() == 0
        },
{
}

} // verus!
