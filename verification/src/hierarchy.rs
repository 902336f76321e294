//! Walks up the scene hierarchy.
//!
//! The hierarchy is whatever the caller's lookup says; walks are bounded, so
//! that a lookup with a cycle in it cannot hold them up.
use crate::retarget;
use crate::secondary;
use vstd::prelude::*;
use vstd::string::*;

verus! {

/// Steps that a search for an ancestor takes at most.
pub const MAX_DEPTH: usize = 64;

/// Steps that a search for a named ancestor takes at most.
pub const MAX_NAME_DEPTH: usize = 32;

/// What a lookup of parents answers.
pub open spec fn answers<P: Fn(u64) -> Option<u64>>(
    parent: P,
    p: spec_fn(u64) -> Option<u64>,
) -> bool {
    forall|e: u64, r: Option<u64>| #[trigger] call_ensures(parent, (e,), r) ==> r == p(e)
}

/// One of `roots` is among the first `n` ancestors of `e`.
pub open spec fn reaches(
    p: spec_fn(u64) -> Option<u64>,
    roots: Seq<u64>,
    e: u64,
    n: nat,
) -> bool
    decreases n,
{
    if n == 0 {
        false
    } else {
        match p(e) {
            None => false,
            Some(up) => roots.contains(up) || reaches(p, roots, up, (n - 1) as nat),
        }
    }
}

/// `e` is one of `roots` or lies below one, within the depth of a walk.
pub open spec fn below(p: spec_fn(u64) -> Option<u64>, roots: Seq<u64>, e: u64) -> bool {
    roots.contains(e) || reaches(p, roots, e, MAX_DEPTH as nat)
}

/// Whether a list holds an entity.
fn holds(list: &Vec<u64>, e: u64) -> (r: bool)
    ensures
        r == list@.contains(e),
{
    let mut i: usize = 0;
    while i < list.len()
        invariant
            i <= list.len(),
            forall|k: int| 0 <= k < i ==> list@[k] != e,
        decreases list.len() - i,
    {
        if list[i] == e {
            return true;
        }
        i = i + 1;
    }
    false
}

/// Whether `entity` is one of `roots` or lies below one. Nothing lies below an
/// empty list.
pub fn is_descendant_of_any<P: Fn(u64) -> Option<u64>>(
    entity: u64,
    parent: &P,
    roots: &Vec<u64>,
) -> (r: bool)
    requires
        forall|e: u64| call_requires(*parent, (e,)),
    ensures
        forall|p: spec_fn(u64) -> Option<u64>| #[trigger]
            answers(*parent, p) ==> r == (roots@.len() > 0 && below(p, roots@, entity)),
{
    if roots.len() == 0 {
        return false;
    }
    if holds(roots, entity) {
        return true;
    }
    let mut current: u64 = entity;
    let mut left: usize = MAX_DEPTH;
    while left > 0
        invariant
            left <= MAX_DEPTH,
            roots@.len() > 0,
            !roots@.contains(entity),
            forall|e: u64| call_requires(*parent, (e,)),
            forall|p: spec_fn(u64) -> Option<u64>| #[trigger]
                answers(*parent, p) ==> reaches(p, roots@, entity, MAX_DEPTH as nat) == reaches(
                    p,
                    roots@,
                    current,
                    left as nat,
                ),
        decreases left,
    {
        match parent(current) {
            None => return false,
            Some(up) => {
                if holds(roots, up) {
                    return true;
                }
                current = up;
            },
        }
        left = left - 1;
    }
    false
}

/// Whether `entity` belongs to the avatar: it is one of `avatars` or lies below
/// one. Before the avatar has been spawned everything does.
pub fn is_under_avatar<P: Fn(u64) -> Option<u64>>(
    entity: u64,
    parent: &P,
    avatars: &Vec<u64>,
) -> (r: bool)
    requires
        forall|e: u64| call_requires(*parent, (e,)),
    ensures
        forall|p: spec_fn(u64) -> Option<u64>| #[trigger]
            answers(*parent, p) ==> r == of_avatar(p, avatars@, entity),
{
    if avatars.len() == 0 {
        return true;
    }
    is_descendant_of_any(entity, parent, avatars)
}

/// `e` belongs to the avatar.
pub open spec fn of_avatar(p: spec_fn(u64) -> Option<u64>, avatars: Seq<u64>, e: u64) -> bool {
    avatars.len() == 0 || below(p, avatars, e)
}

/// The name of the nearest named ancestor among the first `n`.
pub open spec fn named_above(
    p: spec_fn(u64) -> Option<u64>,
    name: spec_fn(u64) -> Option<Seq<char>>,
    e: u64,
    n: nat,
) -> Option<Seq<char>>
    decreases n,
{
    if n == 0 {
        None
    } else {
        match p(e) {
            None => None,
            Some(up) => match name(up) {
                Some(s) => Some(s),
                None => named_above(p, name, up, (n - 1) as nat),
            },
        }
    }
}

/// What a lookup of names answers.
pub open spec fn calls<N: Fn(u64) -> Option<String>>(
    names: N,
    name: spec_fn(u64) -> Option<Seq<char>>,
) -> bool {
    forall|e: u64, r: Option<String>| #[trigger]
        call_ensures(names, (e,), r) ==> match r {
            Some(s) => name(e) == Some(s@),
            None => name(e) is None,
        }
}

/// The name of the nearest named ancestor.
pub fn ancestor_name<P: Fn(u64) -> Option<u64>, N: Fn(u64) -> Option<String>>(
    entity: u64,
    parent: &P,
    names: &N,
) -> (r: Option<String>)
    requires
        forall|e: u64| call_requires(*parent, (e,)),
        forall|e: u64| call_requires(*names, (e,)),
    ensures
        forall|p: spec_fn(u64) -> Option<u64>, name: spec_fn(u64) -> Option<Seq<char>>| #[trigger]
            answers(*parent, p) && #[trigger] calls(*names, name) ==> match r {
                Some(s) => named_above(p, name, entity, MAX_NAME_DEPTH as nat) == Some(s@),
                None => named_above(p, name, entity, MAX_NAME_DEPTH as nat) is None,
            },
{
    let mut current: u64 = entity;
    let mut left: usize = MAX_NAME_DEPTH;
    while left > 0
        invariant
            left <= MAX_NAME_DEPTH,
            forall|e: u64| call_requires(*parent, (e,)),
            forall|e: u64| call_requires(*names, (e,)),
            forall|p: spec_fn(u64) -> Option<u64>, name: spec_fn(u64) -> Option<Seq<char>>|
                #[trigger]
                answers(*parent, p) && #[trigger] calls(*names, name) ==> named_above(
                    p,
                    name,
                    entity,
                    MAX_NAME_DEPTH as nat,
                ) == named_above(p, name, current, left as nat),
        decreases left,
    {
        match parent(current) {
            None => return None,
            Some(up) => {
                match names(up) {
                    Some(s) => return Some(s),
                    None => {},
                }
                current = up;
            },
        }
        left = left - 1;
    }
    None
}

/// The named entities that belong to the avatar, in order.
pub open spec fn avatar_part(
    named: Seq<(u64, Seq<char>)>,
    p: spec_fn(u64) -> Option<u64>,
    avatars: Seq<u64>,
) -> Seq<(u64, Seq<char>)>
    decreases named.len(),
{
    if named.len() == 0 {
        Seq::empty()
    } else {
        let init = avatar_part(named.drop_last(), p, avatars);
        if of_avatar(p, avatars, named.last().0) {
            init.push(named.last())
        } else {
            init
        }
    }
}

/// The named entities that belong to the avatar, in order.
pub fn under_avatar<P: Fn(u64) -> Option<u64>>(
    named: &Vec<(u64, String)>,
    parent: &P,
    avatars: &Vec<u64>,
) -> (r: Vec<(u64, String)>)
    requires
        forall|e: u64| call_requires(*parent, (e,)),
    ensures
        forall|p: spec_fn(u64) -> Option<u64>| #[trigger]
            answers(*parent, p) ==> secondary::named(r@) == avatar_part(
                secondary::named(named@),
                p,
                avatars@,
            ),
{
    let ghost all = secondary::named(named@);
    let mut out: Vec<(u64, String)> = Vec::new();
    let mut i: usize = 0;
    assert(all.take(0) =~= Seq::<(u64, Seq<char>)>::empty());
    assert(secondary::named(out@) =~= Seq::empty());
    while i < named.len()
        invariant
            i <= named.len(),
            all == secondary::named(named@),
            forall|e: u64| call_requires(*parent, (e,)),
            forall|p: spec_fn(u64) -> Option<u64>| #[trigger]
                answers(*parent, p) ==> secondary::named(out@) == avatar_part(
                    all.take(i as int),
                    p,
                    avatars@,
                ),
        decreases named.len() - i,
    {
        let ghost before = out@;
        assert(all.take(i + 1).drop_last() =~= all.take(i as int));
        assert(all[i as int] == (named@[i as int].0, named@[i as int].1@));
        if is_under_avatar(named[i].0, parent, avatars) {
            out.push((named[i].0, named[i].1.clone()));
            assert(secondary::named(out@) =~= secondary::named(before).push(all[i as int]));
        }
        i = i + 1;
    }
    assert(all.take(all.len() as int) =~= all);
    out
}

/// The product of the known rotations of a chain of ancestors, outermost first;
/// the chain is given innermost first.
pub open spec fn chain_product<Q>(
    chain: Seq<Option<Q>>,
    m: spec_fn(Q, Q) -> Q,
    one: Q,
) -> Q
    decreases chain.len(),
{
    if chain.len() == 0 {
        one
    } else {
        let above = chain_product(chain.subrange(1, chain.len() as int), m, one);
        match chain[0] {
            Some(q) => m(above, q),
            None => above,
        }
    }
}

/// World rotation of a chain of ancestors, given innermost first; an ancestor
/// without a rotation counts as unrotated.
pub fn parent_chain_world_rotation<Q: Copy, M: Fn(Q, Q) -> Q>(
    chain: &Vec<Option<Q>>,
    one: Q,
    compose: &M,
) -> (r: Q)
    requires
        forall|a: Q, b: Q| call_requires(*compose, (a, b)),
    ensures
        forall|m: spec_fn(Q, Q) -> Q| #[trigger]
            retarget::composes(*compose, m) ==> r == chain_product(chain@, m, one),
{
    let mut q: Q = one;
    let mut n: usize = chain.len();
    assert(chain@.subrange(n as int, n as int) =~= Seq::empty());
    while n > 0
        invariant
            n <= chain.len(),
            forall|a: Q, b: Q| call_requires(*compose, (a, b)),
            forall|m: spec_fn(Q, Q) -> Q| #[trigger]
                retarget::composes(*compose, m) ==> q == chain_product(
                    chain@.subrange(n as int, chain@.len() as int),
                    m,
                    one,
                ),
        decreases n,
    {
        let ghost rest = chain@.subrange(n - 1, chain@.len() as int);
        assert(rest[0] == chain@[n - 1]);
        assert(rest.subrange(1, rest.len() as int) =~= chain@.subrange(
            n as int,
            chain@.len() as int,
        ));
        match chain[n - 1] {
            Some(own) => {
                q = compose(q, own);
            },
            None => {},
        }
        n = n - 1;
    }
    assert(chain@.subrange(0, chain@.len() as int) =~= chain@);
    q
}

/// A child of something below a root lies below that root, as long as the walk
/// is deep enough.
pub proof fn law_children_lie_below(
    p: spec_fn(u64) -> Option<u64>,
    roots: Seq<u64>,
    child: u64,
    n: nat,
)
    requires
        p(child) is Some,
        roots.contains(p(child)->0) || reaches(p, roots, p(child)->0, n),
    ensures
        reaches(p, roots, child, n + 1),
{
}

/// A deeper walk finds whatever a shallower one finds.
pub proof fn law_deeper_walks_find_more(
    p: spec_fn(u64) -> Option<u64>,
    roots: Seq<u64>,
    e: u64,
    n: nat,
    m: nat,
)
    requires
        n <= m,
        reaches(p, roots, e, n),
    ensures
        reaches(p, roots, e, m),
    decreases n,
{
    match p(e) {
        Some(up) => {
            if !roots.contains(up) {
                law_deeper_walks_find_more(p, roots, up, (n - 1) as nat, (m - 1) as nat);
            }
        },
        None => {},
    }
}

} // verus!
