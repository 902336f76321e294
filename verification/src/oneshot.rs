//! Work that is done once, as soon as it can be done.
use vstd::prelude::*;

verus! {

/// Remembers whether a piece of work has been done.
#[derive(Clone, Copy, Debug, PartialEq, Eq, Structural)]
pub struct OneShot {
    pub done: bool,
}

impl Default for OneShot {
    fn default() -> (r: Self)
        ensures
            !r.done,
    {
        OneShot { done: false }
    }
}

impl OneShot {
    /// Whether the work is to be done now; from then on it counts as done.
    pub fn fire(&mut self, ready: bool) -> (r: bool)
        ensures
            r == (ready && !old(self).done),
            final(self).done == (ready || old(self).done),
    {
        if ready && !self.done {
            self.done = true;
            true
        } else {
            false
        }
    }
}

/// How often the work is done during a series of calls.
pub open spec fn firings(done: bool, ready: Seq<bool>) -> nat
    decreases ready.len(),
{
    if ready.len() == 0 {
        0
    } else {
        let first = ready[0] && !done;
        (if first {
            1nat
        } else {
            0nat
        }) + firings(ready[0] || done, ready.subrange(1, ready.len() as int))
    }
}

/// The work is done exactly once if it can ever be done, else never.
pub proof fn law_fires_once(done: bool, ready: Seq<bool>)
    ensures
        firings(done, ready) == (if !done && ready.contains(true) {
            1nat
        } else {
            0nat
        }),
    decreases ready.len(),
{
    if ready.len() > 0 {
        let rest = ready.subrange(1, ready.len() as int);
        law_fires_once(ready[0] || done, rest);
        if rest.contains(true) {
            let k = choose|k: int| 0 <= k < rest.len() && rest[k] == true;
            assert(ready[k + 1] == true);
        } else if !ready[0] {
            assert forall|k: int| 0 <= k < ready.len() implies ready[k] != true by {
                if k > 0 {
                    assert(rest[k - 1] == ready[k]);
                }
            }
        }
    }
}

} // verus!
