//! Props in the scene: which exist, and which grabs have failed.
use crate::renderer::{GrabFailure, Hand, PropShape};
use crate::text;
use vstd::prelude::*;
use vstd::string::*;

verus! {

/// A failed grab, as plain mathematics.
#[verifier::ext_equal]
pub struct FailureView {
    pub hand: Hand,
    pub target: Seq<char>,
    pub reason: Seq<char>,
}

impl View for GrabFailure {
    type V = FailureView;

    open spec fn view(&self) -> FailureView {
        FailureView { hand: self.hand, target: self.target@, reason: self.reason@ }
    }
}

/// The views of a list of failures.
pub open spec fn failures_view(v: Seq<GrabFailure>) -> Seq<FailureView> {
    v.map_values(|f: GrabFailure| f@)
}

/// What a registry holds, as plain mathematics.
#[verifier::ext_equal]
pub struct RegistryView {
    /// Entity of each prop.
    pub by_id: Map<Seq<char>, u64>,
    /// Failed grabs not yet reported, oldest first.
    pub failures: Seq<FailureView>,
}

/// The props in the scene by id, and the failed grabs not yet reported.
#[derive(Debug)]
pub struct PropRegistry {
    by_id: Vec<(String, u64)>,
    pending_failures: Vec<GrabFailure>,
}

/// Entry `i` of the list is the one for `id`.
spec fn entry_at(list: Seq<(String, u64)>, id: Seq<char>, i: int) -> bool {
    0 <= i < list.len() && list[i].0@ == id
}

/// The list as a map.
spec fn as_map(list: Seq<(String, u64)>) -> Map<Seq<char>, u64> {
    Map::new(
        |id: Seq<char>| exists|i: int| entry_at(list, id, i),
        |id: Seq<char>| list[choose|i: int| entry_at(list, id, i)].1,
    )
}

/// No id occurs twice.
spec fn distinct(list: Seq<(String, u64)>) -> bool {
    forall|i: int, j: int|
        #![trigger list[i], list[j]]
        0 <= i < j < list.len() ==> list[i].0@ != list[j].0@
}

/// An entry of a list without repetitions is what the map says.
proof fn lemma_entry(list: Seq<(String, u64)>, i: int)
    requires
        distinct(list),
        0 <= i < list.len(),
    ensures
        as_map(list).dom().contains(list[i].0@),
        as_map(list)[list[i].0@] == list[i].1,
{
    let id = list[i].0@;
    assert(entry_at(list, id, i));
    let j = choose|j: int| entry_at(list, id, j);
    assert(j == i) by {
        if j < i {
            assert(list[j].0@ != list[i].0@);
        } else if i < j {
            assert(list[i].0@ != list[j].0@);
        }
    }
}

/// A list without repetitions has as many entries as its map.
proof fn lemma_size(list: Seq<(String, u64)>)
    requires
        distinct(list),
    ensures
        as_map(list).dom().finite(),
        as_map(list).dom().len() == list.len(),
    decreases list.len(),
{
    let ids = as_map(list).dom();
    if list.len() == 0 {
        assert forall|id: Seq<char>| !ids.contains(id) by {
            assert(!(exists|i: int| entry_at(list, id, i)));
        }
        assert(ids =~= Set::empty());
    } else {
        let init = list.drop_last();
        let last = list.last().0@;
        lemma_size(init);
        assert forall|id: Seq<char>| ids.contains(id) == as_map(init).dom().insert(last).contains(
            id,
        ) by {
            if exists|i: int| entry_at(list, id, i) {
                let i = choose|i: int| entry_at(list, id, i);
                if i < init.len() {
                    assert(entry_at(init, id, i));
                }
            }
            if exists|i: int| entry_at(init, id, i) {
                let i = choose|i: int| entry_at(init, id, i);
                assert(entry_at(list, id, i));
            }
            assert(entry_at(list, last, list.len() - 1));
        }
        assert(ids =~= as_map(init).dom().insert(last));
        assert(!as_map(init).dom().contains(last)) by {
            if exists|i: int| entry_at(init, last, i) {
                let i = choose|i: int| entry_at(init, last, i);
                assert(list[i].0@ != list[list.len() - 1].0@);
            }
        }
    }
}

impl View for PropRegistry {
    type V = RegistryView;

    closed spec fn view(&self) -> RegistryView {
        RegistryView {
            by_id: as_map(self.by_id@),
            failures: failures_view(self.pending_failures@),
        }
    }
}

impl PropRegistry {
    /// No prop is listed twice.
    pub closed spec fn wf(&self) -> bool {
        distinct(self.by_id@)
    }

    /// No props, no failures.
    pub fn new() -> (r: Self)
        ensures
            r.wf(),
            r@.by_id == Map::<Seq<char>, u64>::empty(),
            r@.failures.len() == 0,
    {
        let r = PropRegistry { by_id: Vec::new(), pending_failures: Vec::new() };
        assert(as_map(r.by_id@) =~= Map::<Seq<char>, u64>::empty()) by {
            assert forall|id: Seq<char>| !as_map(r.by_id@).dom().contains(id) by {
                assert(!(exists|i: int| entry_at(r.by_id@, id, i)));
            }
        }
        r
    }

    /// Position of a prop in the list.
    fn position(&self, id: &str) -> (r: Option<usize>)
        requires
            self.wf(),
        ensures
            r is Some == self@.by_id.dom().contains(id@),
            r matches Some(i) ==> i < self.by_id@.len() && self.by_id@[i as int].0@ == id@
                && self@.by_id[id@] == self.by_id@[i as int].1,
    {
        let mut i: usize = 0;
        while i < self.by_id.len()
            invariant
                i <= self.by_id.len(),
                self.wf(),
                forall|k: int| 0 <= k < i ==> (#[trigger] self.by_id@[k]).0@ != id@,
            decreases self.by_id.len() - i,
        {
            if text::same(self.by_id[i].0.as_str(), id) {
                proof {
                    lemma_entry(self.by_id@, i as int);
                }
                return Some(i);
            }
            i = i + 1;
        }
        assert(!self@.by_id.dom().contains(id@)) by {
            if self@.by_id.dom().contains(id@) {
                let k = choose|k: int| entry_at(self.by_id@, id@, k);
                assert(self.by_id@[k].0@ == id@);
            }
        }
        None
    }

    /// The entity of a prop.
    pub fn get(&self, id: &str) -> (r: Option<u64>)
        requires
            self.wf(),
        ensures
            r == (if self@.by_id.dom().contains(id@) {
                Some(self@.by_id[id@])
            } else {
                None
            }),
    {
        match self.position(id) {
            Some(i) => Some(self.by_id[i].1),
            None => None,
        }
    }

    /// Number of props.
    pub fn len(&self) -> (r: usize)
        requires
            self.wf(),
        ensures
            self@.by_id.dom().finite(),
            r == self@.by_id.dom().len(),
    {
        proof {
            lemma_size(self.by_id@);
        }
        self.by_id.len()
    }

    /// Takes a prop off the list and returns its entity.
    pub fn remove(&mut self, id: &str) -> (r: Option<u64>)
        requires
            old(self).wf(),
        ensures
            final(self).wf(),
            final(self)@.by_id == old(self)@.by_id.remove(id@),
            final(self)@.failures == old(self)@.failures,
            r == (if old(self)@.by_id.dom().contains(id@) {
                Some(old(self)@.by_id[id@])
            } else {
                None
            }),
    {
        let ghost before = self.by_id@;
        match self.position(id) {
            Some(at) => {
                let (_, entity) = self.by_id.remove(at);
                proof {
                    let after = self.by_id@;
                    assert(after =~= before.remove(at as int));
                    assert forall|i: int, j: int|
                        #![trigger after[i], after[j]]
                        0 <= i < j < after.len() implies after[i].0@ != after[j].0@ by {
                        let oi = if i < at {
                            i
                        } else {
                            i + 1
                        };
                        let oj = if j < at {
                            j
                        } else {
                            j + 1
                        };
                        assert(after[i] == before[oi]);
                        assert(after[j] == before[oj]);
                        assert(before[oi].0@ != before[oj].0@);
                    }
                    assert forall|k: Seq<char>|
                        #![trigger as_map(after).dom().contains(k)]
                        #![trigger as_map(after)[k]]
                        #![trigger as_map(before).remove(id@).dom().contains(k)]
                        as_map(after).dom().contains(k) == as_map(before).remove(
                            id@,
                        ).dom().contains(k) && (as_map(after).dom().contains(k) ==> as_map(
                            after,
                        )[k] == as_map(before)[k]) by {
                        if as_map(after).dom().contains(k) {
                            let i = choose|i: int| entry_at(after, k, i);
                            let oi = if i < at {
                                i
                            } else {
                                i + 1
                            };
                            assert(after[i] == before[oi]);
                            lemma_entry(after, i);
                            lemma_entry(before, oi);
                            if k == id@ {
                                if oi < at {
                                    assert(before[oi].0@ != before[at as int].0@);
                                } else {
                                    assert(before[at as int].0@ != before[oi].0@);
                                }
                            }
                        }
                        if as_map(before).remove(id@).dom().contains(k) {
                            let oi = choose|i: int| entry_at(before, k, i);
                            let i = if oi < at {
                                oi
                            } else {
                                oi - 1
                            };
                            assert(after[i] == before[oi]);
                            assert(entry_at(after, k, i));
                        }
                    }
                    assert(as_map(after) =~= as_map(before).remove(id@));
                }
                Some(entity)
            },
            None => {
                assert(self@.by_id.remove(id@) =~= self@.by_id);
                None
            },
        }
    }

    /// Lists a prop that is not listed yet.
    fn add(&mut self, id: String, entity: u64)
        requires
            old(self).wf(),
            !old(self)@.by_id.dom().contains(id@),
        ensures
            final(self).wf(),
            final(self)@.by_id == old(self)@.by_id.insert(id@, entity),
            final(self)@.failures == old(self)@.failures,
    {
        let ghost before = self.by_id@;
        self.by_id.push((id, entity));
        proof {
            let after = self.by_id@;
            let n = before.len() as int;
            assert forall|i: int, j: int|
                #![trigger after[i], after[j]]
                0 <= i < j < after.len() implies after[i].0@ != after[j].0@ by {
                assert(after[i] == before[i]);
                if j < n {
                    assert(after[j] == before[j]);
                } else {
                    assert(entry_at(before, before[i].0@, i));
                }
            }
            assert forall|k: Seq<char>|
                #![trigger as_map(after).dom().contains(k)]
                #![trigger as_map(after)[k]]
                #![trigger as_map(before).insert(id@, entity).dom().contains(k)]
                as_map(after).dom().contains(k) == as_map(before).insert(
                    id@,
                    entity,
                ).dom().contains(k) && (as_map(after).dom().contains(k) ==> as_map(after)[k]
                    == as_map(before).insert(id@, entity)[k]) by {
                if as_map(after).dom().contains(k) {
                    let i = choose|i: int| entry_at(after, k, i);
                    lemma_entry(after, i);
                    if i < n {
                        assert(after[i] == before[i]);
                        lemma_entry(before, i);
                    }
                }
                if as_map(before).dom().contains(k) {
                    let i = choose|i: int| entry_at(before, k, i);
                    assert(after[i] == before[i]);
                    assert(entry_at(after, k, i));
                }
                assert(entry_at(after, id@, n));
            }
            assert(as_map(after) =~= as_map(before).insert(id@, entity));
        }
    }

    /// Lists a prop, in place of one of the same id.
    pub fn insert(&mut self, id: String, entity: u64)
        requires
            old(self).wf(),
        ensures
            final(self).wf(),
            final(self)@.by_id == old(self)@.by_id.insert(id@, entity),
            final(self)@.failures == old(self)@.failures,
    {
        let ghost before = self@.by_id;
        let _ = self.remove(id.as_str());
        assert(before.remove(id@).insert(id@, entity) =~= before.insert(id@, entity));
        self.add(id, entity);
    }

    /// Notes a failed grab.
    pub fn fail(&mut self, hand: Hand, target: String, reason: &str)
        ensures
            final(self).wf() == old(self).wf(),
            final(self)@.by_id == old(self)@.by_id,
            final(self)@.failures == old(self)@.failures.push(
                (FailureView { hand, target: target@, reason: reason@ }),
            ),
    {
        let ghost before = self.pending_failures@;
        let failure = GrabFailure { hand, target, reason: reason.to_owned() };
        self.pending_failures.push(failure);
        assert(failures_view(self.pending_failures@) =~= failures_view(before).push(failure@));
    }

    /// Whether a failure waits to be reported.
    pub fn has_failures(&self) -> (r: bool)
        ensures
            r == (self@.failures.len() > 0),
    {
        self.pending_failures.len() > 0
    }

    /// Hands out the failures not yet reported.
    pub fn take_failures(&mut self) -> (r: Vec<GrabFailure>)
        ensures
            final(self).wf() == old(self).wf(),
            final(self)@.by_id == old(self)@.by_id,
            final(self)@.failures.len() == 0,
            failures_view(r@) == old(self)@.failures,
    {
        let mut taken: Vec<GrabFailure> = Vec::new();
        taken.append(&mut self.pending_failures);
        assert(failures_view(taken@) =~= old(self)@.failures);
        taken
    }
}

impl Default for PropRegistry {
    fn default() -> (r: Self)
        ensures
            r.wf(),
            r@.by_id == Map::<Seq<char>, u64>::empty(),
            r@.failures.len() == 0,
    {
        PropRegistry::new()
    }
}

/// Whether a prop of this shape shows up only once its file is loaded.
pub fn loads_later<F>(shape: &PropShape<F>) -> (r: bool)
    ensures
        r == shape is MeshGlb,
{
    match shape {
        PropShape::MeshGlb { .. } => true,
        _ => false,
    }
}

/// What becomes of the placeholder of a prop whose file is being loaded.
#[derive(Clone, Copy, Debug, PartialEq, Eq, Structural)]
pub enum MeshStep {
    /// The file is not loaded yet.
    Wait,
    /// The file holds no mesh: the placeholder stays for good, and the prop
    /// counts as loading.
    Keep,
    /// A box around the meshes takes the placeholder's place.
    Replace,
}

/// What becomes of a placeholder, given how far its file is and how many meshes
/// it holds.
pub fn mesh_step(loaded: bool, meshes: usize) -> (r: MeshStep)
    ensures
        r == if !loaded {
            MeshStep::Wait
        } else if meshes == 0 {
            MeshStep::Keep
        } else {
            MeshStep::Replace
        },
{
    if !loaded {
        MeshStep::Wait
    } else if meshes == 0 {
        MeshStep::Keep
    } else {
        MeshStep::Replace
    }
}

} // verus!
