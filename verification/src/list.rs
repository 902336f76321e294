//! List helpers.
use vstd::prelude::*;

verus! {

/// The elements of `v`, last first.
pub fn reversed<T>(v: Vec<T>) -> (r: Vec<T>)
    ensures
        r@.len() == v@.len(),
        forall|i: int| 0 <= i < r@.len() ==> (#[trigger] r@[i]) == v@[v@.len() - 1 - i],
{
    let ghost all = v@;
    let mut rest: Vec<T> = v;
    let mut out: Vec<T> = Vec::new();
    while rest.len() > 0
        invariant
            rest@.len() + out@.len() == all.len(),
            rest@ == all.take(rest@.len() as int),
            forall|i: int| 0 <= i < out@.len() ==> (#[trigger] out@[i]) == all[all.len() - 1 - i],
        decreases rest.len(),
    {
        match rest.pop() {
            Some(x) => out.push(x),
            None => {},
        }
    }
    out
}

} // verus!
