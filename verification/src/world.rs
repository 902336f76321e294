//! Where the floor is.
use vstd::prelude::*;

verus! {

/// The ankles and feet, as joint indices.
pub open spec fn foot_joints() -> Seq<usize> {
    seq![7usize, 8, 10, 11]
}

/// What a lookup of heights answers.
pub open spec fn finds<H, R: Fn(usize) -> Option<H>>(
    resolve: R,
    h: spec_fn(usize) -> Option<H>,
) -> bool {
    forall|i: usize, r: Option<H>| #[trigger] call_ensures(resolve, (i,), r) ==> r == h(i)
}

/// What the smaller of two heights is.
pub open spec fn compares<H, L: Fn(H, H) -> H>(lower: L, l: spec_fn(H, H) -> H) -> bool {
    forall|a: H, b: H, r: H| #[trigger] call_ensures(lower, (a, b), r) ==> r == l(a, b)
}

/// The lowest of the known heights of some joints, taken in order.
pub open spec fn lowest<H>(
    joints: Seq<usize>,
    h: spec_fn(usize) -> Option<H>,
    l: spec_fn(H, H) -> H,
) -> Option<H>
    decreases joints.len(),
{
    if joints.len() == 0 {
        None
    } else {
        match (lowest(joints.drop_last(), h, l), h(joints.last())) {
            (Some(a), Some(b)) => Some(l(a, b)),
            (Some(a), None) => Some(a),
            (None, b) => b,
        }
    }
}

/// Height of the lowest ankle or foot whose height is known; `None` while none
/// is. No other joint is asked for.
pub fn lowest_foot_y<H: Copy, R: Fn(usize) -> Option<H>, L: Fn(H, H) -> H>(
    resolve: &R,
    lower: &L,
) -> (r: Option<H>)
    requires
        forall|i: usize| foot_joints().contains(i) ==> call_requires(*resolve, (i,)),
        forall|a: H, b: H| call_requires(*lower, (a, b)),
    ensures
        forall|h: spec_fn(usize) -> Option<H>, l: spec_fn(H, H) -> H| #[trigger]
            finds(*resolve, h) && #[trigger] compares(*lower, l) ==> r == lowest(
                foot_joints(),
                h,
                l,
            ),
{
    let joints: [usize; 4] = [7, 8, 10, 11];
    let mut low: Option<H> = None;
    let mut i: usize = 0;
    assert(joints@ =~= foot_joints());
    assert(joints@.take(0) =~= Seq::<usize>::empty());
    while i < 4
        invariant
            i <= 4,
            joints@ == foot_joints(),
            forall|i: usize| foot_joints().contains(i) ==> call_requires(*resolve, (i,)),
            forall|a: H, b: H| call_requires(*lower, (a, b)),
            forall|h: spec_fn(usize) -> Option<H>, l: spec_fn(H, H) -> H| #[trigger]
                finds(*resolve, h) && #[trigger] compares(*lower, l) ==> low == lowest(
                    joints@.take(i as int),
                    h,
                    l,
                ),
        decreases 4 - i,
    {
        assert(joints@.take(i + 1).drop_last() =~= joints@.take(i as int));
        assert(foot_joints().contains(joints@[i as int]));
        let found: Option<H> = resolve(joints[i]);
        low = match (low, found) {
            (Some(a), Some(b)) => Some(lower(a, b)),
            (Some(a), None) => Some(a),
            (None, b) => b,
        };
        i = i + 1;
    }
    assert(joints@.take(4) =~= joints@);
    low
}

/// What becomes of the floor in one frame.
#[derive(Clone, Copy, Debug, PartialEq, Eq)]
pub enum GroundStep<H> {
    /// Not yet, or no longer, of interest.
    Wait,
    /// The floor stays where it is.
    Keep,
    /// The floor and the walls are set up anew at this height.
    Move(H),
}

/// Looks for the floor once, when the body has been found.
#[derive(Clone, Copy, Debug, PartialEq, Eq, Structural)]
pub struct GroundFinder {
    pub searching: bool,
}

/// What `close` takes for the same height.
pub open spec fn equates<H, C: Fn(H, H) -> bool>(close: C, c: spec_fn(H, H) -> bool) -> bool {
    forall|a: H, b: H, r: bool| #[trigger] call_ensures(close, (a, b), r) ==> r == c(a, b)
}

impl GroundFinder {
    /// Searches for the floor where its height is not given.
    pub fn new(is_given: bool) -> (r: Self)
        ensures
            r.searching == !is_given,
    {
        GroundFinder { searching: !is_given }
    }

    /// One frame. `body_found` tells whether the joints are known, `lowest` is
    /// the height of the lowest foot, `current` that of the floor. The search is
    /// over once the body has been found, whether or not it had feet.
    pub fn step<H: Copy, C: Fn(H, H) -> bool>(
        &mut self,
        body_found: bool,
        lowest: Option<H>,
        current: H,
        close: &C,
    ) -> (r: GroundStep<H>)
        requires
            forall|a: H, b: H| call_requires(*close, (a, b)),
        ensures
            final(self).searching == (old(self).searching && !body_found),
            forall|c: spec_fn(H, H) -> bool| #[trigger]
                equates(*close, c) ==> r == (if !old(self).searching || !body_found {
                    GroundStep::Wait
                } else {
                    match lowest {
                        None => GroundStep::Keep,
                        Some(y) => if c(y, current) {
                            GroundStep::Keep
                        } else {
                            GroundStep::Move(y)
                        },
                    }
                }),
    {
        if !self.searching || !body_found {
            return GroundStep::Wait;
        }
        self.searching = false;
        match lowest {
            None => GroundStep::Keep,
            Some(y) => {
                if close(y, current) {
                    GroundStep::Keep
                } else {
                    GroundStep::Move(y)
                }
            },
        }
    }
}

/// No floor is found where no foot is.
pub proof fn law_no_feet_no_floor<H>(
    joints: Seq<usize>,
    h: spec_fn(usize) -> Option<H>,
    l: spec_fn(H, H) -> H,
)
    requires
        forall|k: int| 0 <= k < joints.len() ==> h(#[trigger] joints[k]) is None,
    ensures
        lowest(joints, h, l) is None,
    decreases joints.len(),
{
    if joints.len() > 0 {
        let init = joints.drop_last();
        assert(joints.last() == joints[joints.len() - 1]);
        assert forall|k: int| 0 <= k < init.len() implies h(#[trigger] init[k]) is None by {
            assert(init[k] == joints[k]);
        }
        law_no_feet_no_floor(init, h, l);
    }
}

/// On heights in whole units, the floor lies under every foot.
pub proof fn law_floor_is_lowest(joints: Seq<usize>, h: spec_fn(usize) -> Option<int>, k: int)
    requires
        0 <= k < joints.len(),
        h(joints[k]) is Some,
    ensures
        lowest(
            joints,
            h,
            |a: int, b: int|
                if a <= b {
                    a
                } else {
                    b
                },
        ) matches Some(y) && y <= h(joints[k])->0,
    decreases joints.len(),
{
    let l = |a: int, b: int|
        if a <= b {
            a
        } else {
            b
        };
    if k < joints.len() - 1 {
        assert(joints.drop_last()[k] == joints[k]);
        law_floor_is_lowest(joints.drop_last(), h, k);
    }
    assert(lowest(joints, h, l) matches Some(y) && y <= h(joints[k])->0);
}

/// Where the lower of two heights is one of the two, the floor is at the height of
/// some foot.
pub proof fn law_floor_is_under_a_foot<H>(
    joints: Seq<usize>,
    h: spec_fn(usize) -> Option<H>,
    l: spec_fn(H, H) -> H,
)
    requires
        forall|a: H, b: H| (#[trigger] l(a, b)) == a || l(a, b) == b,
        lowest(joints, h, l) is Some,
    ensures
        exists|k: int| 0 <= k < joints.len() && h(#[trigger] joints[k]) == lowest(joints, h, l),
    decreases joints.len(),
{
    if joints.len() > 0 {
        let init = joints.drop_last();
        let last = joints.len() - 1;
        if lowest(init, h, l) is Some {
            law_floor_is_under_a_foot(init, h, l);
            let k = choose|k: int| 0 <= k < init.len() && h(#[trigger] init[k]) == lowest(init, h, l);
            assert(joints[k] == init[k]);
        }
        assert(joints[last] == joints.last());
    }
}

} // verus!
