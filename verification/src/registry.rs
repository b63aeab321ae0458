//! The request correlation registry: pending waits, each under the numeric
//! id that its request carried.

use std::collections::HashMap;
use vstd::prelude::*;
use vstd::std_specs::hash::*;

verus! {

broadcast use vstd::std_specs::hash::group_hash_axioms;

/// What ended a wait.
#[derive(Debug)]
pub enum WaitEnd<T> {
    /// The ingestion side delivered an outcome.
    Resolved(T),
    /// The completion slot was dropped without an outcome.
    Abandoned,
    /// The caller's time ran out.
    TimedOut,
    /// The request could not be sent, so that no answer can come.
    Unsent,
}

impl<T> WaitEnd<T> {
    /// Whether the wait ended without the ingestion side having taken its
    /// entry out of the registry, so that the caller has to.
    pub open spec fn spec_leaves_entry(&self) -> bool {
        self is TimedOut || self is Unsent
    }

    #[verifier::when_used_as_spec(spec_leaves_entry)]
    pub fn leaves_entry(&self) -> (r: bool)
        ensures
            r == self.spec_leaves_entry(),
    {
        match self {
            WaitEnd::TimedOut => true,
            WaitEnd::Unsent => true,
            _ => false,
        }
    }
}

/// The pending waits of one kind. `H` is the completion handle through which
/// the waiting caller is told the outcome. An id has at most one entry.
pub struct CorrelationRegistry<H> {
    waiters: HashMap<u32, H>,
}

impl<H> View for CorrelationRegistry<H> {
    type V = Map<u32, H>;

    closed spec fn view(&self) -> Map<u32, H> {
        self.waiters@
    }
}

/// The pending waits after a wait under `id` has been registered.
pub open spec fn registered<H>(pending: Map<u32, H>, id: u32, handle: H) -> Map<u32, H> {
    pending.insert(id, handle)
}

/// The pending waits after the wait under `id`, if any, has been taken out.
pub open spec fn released<H>(pending: Map<u32, H>, id: u32) -> Map<u32, H> {
    pending.remove(id)
}

/// The handle pending under `id`, if any.
pub open spec fn pending_handle<H>(pending: Map<u32, H>, id: u32) -> Option<H> {
    if pending.contains_key(id) {
        Some(pending[id])
    } else {
        None
    }
}

impl<H> CorrelationRegistry<H> {
    /// A registry without pending waits.
    pub fn new() -> (r: Self)
        ensures
            r@ == Map::<u32, H>::empty(),
    {
        CorrelationRegistry { waiters: HashMap::new() }
    }

    /// The number of pending waits.
    pub fn len(&self) -> (n: usize)
        ensures
            n == self@.len(),
            self@.dom().finite(),
    {
        self.waiters.len()
    }

    /// Whether no wait is pending.
    pub fn is_empty(&self) -> (r: bool)
        ensures
            r == (self@.len() == 0),
            self@.dom().finite(),
    {
        self.waiters.len() == 0
    }

    /// Whether a wait is pending under `id`.
    pub fn contains(&self, id: u32) -> (r: bool)
        ensures
            r == self@.contains_key(id),
    {
        self.waiters.contains_key(&id)
    }

    /// Registers a wait under `id`. A wait already pending under the same id
    /// is displaced and handed back: its caller will never be resolved.
    pub fn register(&mut self, id: u32, handle: H) -> (displaced: Option<H>)
        ensures
            final(self)@ == registered(old(self)@, id, handle),
            displaced == pending_handle(old(self)@, id),
    {
        self.waiters.insert(id, handle)
    }

    /// Takes the wait under `id` out, if one is pending, and hands its
    /// completion handle over. Resolution and timeout both go through here,
    /// so that whichever comes second finds nothing.
    pub fn remove(&mut self, id: u32) -> (taken: Option<H>)
        ensures
            final(self)@ == released(old(self)@, id),
            taken == pending_handle(old(self)@, id),
    {
        self.waiters.remove(&id)
    }
}

/// A wait that was resolved stays resolved: taking the same id out again
/// finds nothing and leaves the registry as it is, in content and in size.
pub proof fn lemma_second_removal_changes_nothing<H>(pending: Map<u32, H>, id: u32)
    requires
        pending.dom().finite(),
    ensures
        pending_handle(released(pending, id), id) is None,
        released(released(pending, id), id) == released(pending, id),
        released(released(pending, id), id).len() == released(pending, id).len(),
{
    assert(released(released(pending, id), id) =~= released(pending, id));
}

/// Removal takes exactly one entry out when a wait is pending under the id,
/// and none otherwise.
pub proof fn lemma_removal_size<H>(pending: Map<u32, H>, id: u32)
    requires
        pending.dom().finite(),
    ensures
        released(pending, id).dom().finite(),
        pending.contains_key(id) ==> released(pending, id).len() + 1 == pending.len(),
        !pending.contains_key(id) ==> released(pending, id) == pending,
{
    if !pending.contains_key(id) {
        assert(released(pending, id) =~= pending);
    }
}

} // verus!
