use std::collections::HashMap;
use vstd::prelude::*;

use crate::cue::{Cue, CueModel};
use crate::ordered::{sorted_keys, strictly_ascending};

verus! {

broadcast use vstd::std_specs::hash::group_hash_axioms;

/// The registry after `define(c)`: an upsert keyed by the cue's id.
pub open spec fn define_model(m: Map<u32, CueModel>, c: CueModel) -> Map<u32, CueModel> {
    m.insert(c.id, c)
}

/// The registry after `remove(id)`.
pub open spec fn remove_model(m: Map<u32, CueModel>, id: u32) -> Map<u32, CueModel> {
    m.remove(id)
}

/// What `get(id)` returns on a registry.
pub open spec fn get_model(m: Map<u32, CueModel>, id: u32) -> Option<CueModel> {
    if m.contains_key(id) {
        Some(m[id])
    } else {
        None
    }
}

/// Every stored cue sits under its own id.
pub open spec fn keyed_by_id(m: Map<u32, CueModel>) -> bool {
    forall|k: u32| m.contains_key(k) ==> #[trigger] m[k].id == k
}

/// Defining a cue and then looking up its id gives back that cue.
pub proof fn lemma_define_then_get(m: Map<u32, CueModel>, c: CueModel)
    ensures
        get_model(define_model(m, c), c.id) == Some(c),
{
}

/// Defining two cues with the same id keeps only the second: the registry
/// is as if the first had never been defined.
pub proof fn lemma_define_overwrites(m: Map<u32, CueModel>, first: CueModel, second: CueModel)
    requires
        first.id == second.id,
    ensures
        define_model(define_model(m, first), second) == define_model(m, second),
        get_model(define_model(define_model(m, first), second), second.id) == Some(second),
{
    assert(define_model(define_model(m, first), second) =~= define_model(m, second));
}

/// Removing an id that is not defined changes nothing.
pub proof fn lemma_remove_absent(m: Map<u32, CueModel>, id: u32)
    requires
        !m.contains_key(id),
    ensures
        remove_model(m, id) == m,
{
    assert(remove_model(m, id) =~= m);
}

/// The registry of cue definitions, keyed by cue id.
pub struct CueManager {
    cues: HashMap<u32, Cue>,
}

impl View for CueManager {
    type V = Map<u32, CueModel>;

    closed spec fn view(&self) -> Map<u32, CueModel> {
        self.cues@.map_values(|c: Cue| c@)
    }
}

impl CueManager {
    /// Well-formedness: each cue is stored under its own id.
    pub open spec fn wf(&self) -> bool {
        keyed_by_id(self@)
    }

    /// An empty registry.
    pub fn new() -> (r: CueManager)
        ensures
            r.wf(),
            r@ == Map::<u32, CueModel>::empty(),
    {
        let r = CueManager { cues: HashMap::new() };
        assert(r@ =~= Map::<u32, CueModel>::empty());
        r
    }

    /// Inserts `cue`, replacing any cue with the same id.
    pub fn define_cue(&mut self, cue: Cue)
        requires
            old(self).wf(),
        ensures
            final(self).wf(),
            final(self)@ == define_model(old(self)@, cue@),
    {
        let ghost c = cue@;
        self.cues.insert(cue.id, cue);
        assert(self@ =~= define_model(old(self)@, c));
    }

    /// Removes the cue with id `cue_id`; nothing happens when there is none.
    pub fn remove_cue(&mut self, cue_id: u32)
        requires
            old(self).wf(),
        ensures
            final(self).wf(),
            final(self)@ == remove_model(old(self)@, cue_id),
    {
        self.cues.remove(&cue_id);
        assert(self@ =~= remove_model(old(self)@, cue_id));
    }

    /// The cue with id `cue_id`, if one is defined.
    pub fn get_cue(&self, cue_id: u32) -> (r: Option<&Cue>)
        ensures
            r matches Some(c) ==> get_model(self@, cue_id) == Some(c@),
            r is None ==> get_model(self@, cue_id) is None,
    {
        self.cues.get(&cue_id)
    }

    /// Whether a cue with id `cue_id` is defined.
    pub fn contains(&self, cue_id: u32) -> (r: bool)
        ensures
            r == self@.contains_key(cue_id),
    {
        self.cues.contains_key(&cue_id)
    }

    /// The ids of all defined cues, in ascending order.
    pub fn sorted_ids(&self) -> (r: Vec<u32>)
        ensures
            strictly_ascending(r@),
            forall|k: u32| r@.contains(k) <==> self@.contains_key(k),
    {
        sorted_keys(&self.cues)
    }

    /// A snapshot of all defined cues, in ascending order of id.
    pub fn list(&self) -> (r: Vec<Cue>)
        requires
            self.wf(),
        ensures
            strictly_ascending(r@.map_values(|c: Cue| c.id)),
            forall|i: int| 0 <= i < r@.len() ==> self@.contains_key(#[trigger] r@[i].id) && self@[r@[i].id] == r@[i]@,
            forall|k: u32| self@.contains_key(k) ==> exists|i: int| 0 <= i < r@.len() && #[trigger] r@[i].id == k,
    {
        let ids = self.sorted_ids();
        let mut out: Vec<Cue> = Vec::new();
        for i in 0..ids.len()
            invariant
                self.wf(),
                strictly_ascending(ids@),
                forall|k: u32| ids@.contains(k) <==> self@.contains_key(k),
                out@.len() == i,
                forall|j: int| 0 <= j < i ==> #[trigger] out@[j].id == ids@[j],
                forall|j: int| 0 <= j < i ==> self@.contains_key(#[trigger] ids@[j]),
                forall|j: int| 0 <= j < i ==> self@[ids@[j]] == (#[trigger] out@[j])@,
        {
            let id = ids[i];
            assert(ids@.contains(id));
            match self.get_cue(id) {
                Some(c) => {
                    let d = c.duplicate();
                    assert(self@.contains_key(id) && self@[id].id == id);
                    assert(d@ == self@[id]);
                    out.push(d);
                },
                None => {
                    assert(false);
                },
            }
        }
        assert(out@.map_values(|c: Cue| c.id) =~= ids@);
        assert forall|k: u32| self@.contains_key(k) implies exists|i: int| 0 <= i < out@.len() && #[trigger] out@[i].id == k by {
            assert(ids@.contains(k));
            let i = choose|i: int| 0 <= i < ids@.len() && ids@[i] == k;
            assert(out@[i].id == k);
        }
        out
    }
}

} // verus!
