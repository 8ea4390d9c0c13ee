use std::collections::HashMap;
use vstd::prelude::*;

use crate::ordered::{sorted_keys, strictly_ascending};

verus! {

broadcast use vstd::std_specs::hash::group_hash_axioms;

/// One running execution of a cue: the token that names this execution and
/// the handle on its process.
pub struct Instance<H> {
    pub token: u64,
    pub handle: H,
}

/// The token that follows `t`; it wraps around after `u64::MAX`.
pub open spec fn next_token(t: u64) -> u64 {
    if t == u64::MAX {
        0
    } else {
        (t + 1) as u64
    }
}

/// The set after a process for `id` was recorded under `token`.
pub open spec fn insert_model<H>(m: Map<u32, Instance<H>>, id: u32, token: u64, handle: H) -> Map<
    u32,
    Instance<H>,
> {
    m.insert(id, Instance { token, handle })
}

/// The set after the reaper of execution `token` of `id` observed its exit:
/// the entry goes only if it is still that execution.
pub open spec fn reap_model<H>(m: Map<u32, Instance<H>>, id: u32, token: u64) -> Map<u32, Instance<H>> {
    if m.contains_key(id) && m[id].token == token {
        m.remove(id)
    } else {
        m
    }
}

/// The set after an explicit stop of `id`.
pub open spec fn cancel_model<H>(m: Map<u32, Instance<H>>, id: u32) -> Map<u32, Instance<H>> {
    m.remove(id)
}

/// Once the process of an execution has exited, its reaper leaves the cue
/// untracked: right after it was recorded, and in any later state in which
/// the cue is either untracked or still tracked as that same execution.
pub proof fn lemma_reaped_after_exit<H>(m: Map<u32, Instance<H>>, id: u32, token: u64, handle: H)
    ensures
        !reap_model(insert_model(m, id, token, handle), id, token).contains_key(id),
        forall|later: Map<u32, Instance<H>>|
            (later.contains_key(id) ==> later[id].token == token) ==> !(#[trigger] reap_model(
                later,
                id,
                token,
            )).contains_key(id),
{
}

/// A stop leaves the cue untracked at once, whether or not its process has
/// exited yet.
pub proof fn lemma_stop_removes<H>(m: Map<u32, Instance<H>>, id: u32)
    ensures
        !cancel_model(m, id).contains_key(id),
{
}

/// Recording, reaping or stopping one cue leaves the entry of every other
/// cue as it was.
pub proof fn lemma_other_cues_untouched<H>(
    m: Map<u32, Instance<H>>,
    id: u32,
    other: u32,
    token: u64,
    handle: H,
)
    requires
        id != other,
    ensures
        insert_model(m, id, token, handle).contains_key(other) == m.contains_key(other),
        reap_model(m, id, token).contains_key(other) == m.contains_key(other),
        cancel_model(m, id).contains_key(other) == m.contains_key(other),
        m.contains_key(other) ==> insert_model(m, id, token, handle)[other] == m[other],
        m.contains_key(other) ==> reap_model(m, id, token)[other] == m[other],
        m.contains_key(other) ==> cancel_model(m, id)[other] == m[other],
{
}

/// The cues that are executing now, each with the handle on its process.
/// At most one execution per cue id is tracked.
pub struct RunningSet<H> {
    entries: HashMap<u32, Instance<H>>,
    next: u64,
}

impl<H> View for RunningSet<H> {
    type V = Map<u32, Instance<H>>;

    closed spec fn view(&self) -> Map<u32, Instance<H>> {
        self.entries@
    }
}

impl<H> RunningSet<H> {
    /// The token that the next recorded execution gets.
    pub closed spec fn next_spec(&self) -> u64 {
        self.next
    }

    /// An empty set.
    pub fn new() -> (r: RunningSet<H>)
        ensures
            r@ == Map::<u32, Instance<H>>::empty(),
            r.next_spec() == 0,
    {
        RunningSet { entries: HashMap::new(), next: 0 }
    }

    /// Records the process `handle` for cue `id` when no execution of `id` is
    /// tracked, and returns the token of the new execution. When one is
    /// tracked, nothing changes and the handle comes back.
    pub fn try_insert(&mut self, id: u32, handle: H) -> (r: Result<u64, H>)
        ensures
            old(self)@.contains_key(id) ==> {
                &&& r == Err::<u64, H>(handle)
                &&& final(self)@ == old(self)@
                &&& final(self).next_spec() == old(self).next_spec()
            },
            !old(self)@.contains_key(id) ==> {
                &&& r == Ok::<u64, H>(old(self).next_spec())
                &&& final(self)@ == insert_model(old(self)@, id, old(self).next_spec(), handle)
                &&& final(self).next_spec() == next_token(old(self).next_spec())
            },
    {
        if self.entries.contains_key(&id) {
            Err(handle)
        } else {
            let token = self.next;
            self.next = if self.next == u64::MAX {
                0
            } else {
                self.next + 1
            };
            self.entries.insert(id, Instance { token, handle });
            Ok(token)
        }
    }

    /// Removes the execution of `id` and returns its handle, if one is tracked.
    pub fn remove_if_present(&mut self, id: u32) -> (r: Option<H>)
        ensures
            final(self)@ == cancel_model(old(self)@, id),
            final(self).next_spec() == old(self).next_spec(),
            old(self)@.contains_key(id) ==> r == Some(old(self)@[id].handle),
            !old(self)@.contains_key(id) ==> r is None,
    {
        match self.entries.remove(&id) {
            Some(inst) => Some(inst.handle),
            None => None,
        }
    }

    /// Removes the execution `token` of `id` and returns its handle, if that
    /// execution is still the one tracked for `id`.
    pub fn remove_instance(&mut self, id: u32, token: u64) -> (r: Option<H>)
        ensures
            final(self)@ == reap_model(old(self)@, id, token),
            final(self).next_spec() == old(self).next_spec(),
            old(self)@.contains_key(id) && old(self)@[id].token == token ==> r == Some(
                old(self)@[id].handle,
            ),
            !(old(self)@.contains_key(id) && old(self)@[id].token == token) ==> r is None,
    {
        let current = match self.entries.get(&id) {
            Some(inst) => inst.token == token,
            None => false,
        };
        if current {
            match self.entries.remove(&id) {
                Some(inst) => Some(inst.handle),
                None => None,
            }
        } else {
            None
        }
    }

    /// Whether an execution of `id` is tracked.
    pub fn contains(&self, id: u32) -> (r: bool)
        ensures
            r == self@.contains_key(id),
    {
        self.entries.contains_key(&id)
    }

    /// The ids of the cues that are executing, in ascending order.
    pub fn ids(&self) -> (r: Vec<u32>)
        ensures
            strictly_ascending(r@),
            forall|k: u32| r@.contains(k) <==> self@.contains_key(k),
    {
        sorted_keys(&self.entries)
    }
}

} // verus!
