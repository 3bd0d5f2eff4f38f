//! Serialized entry into one foreign execution context.
//!
//! The foreign side is effectively single-threaded per context: many native
//! workers may queue dispatches for entry concurrently, but at most one
//! dispatch is inside the context at a time, and entry is granted in
//! posting order.

use vstd::prelude::*;
use crate::bridge::ContextToken;

verus! {

/// The entry queue of one foreign execution context. Dispatches are named
/// by identifier; `active` is the dispatch currently inside the context.
#[derive(Debug)]
pub struct ContextGuard {
    pub context: ContextToken,
    pub queue: Vec<u64>,
    pub active: Option<u64>,
}

/// The mathematical value of a [`ContextGuard`].
pub struct GuardView {
    pub context: ContextToken,
    pub queue: Seq<u64>,
    pub active: Option<u64>,
}

impl View for ContextGuard {
    type V = GuardView;

    open spec fn view(&self) -> GuardView {
        GuardView { context: self.context, queue: self.queue@, active: self.active }
    }
}

/// Well-formedness of a guard: no dispatch is queued twice, and the
/// dispatch inside the context is not also queued — each dispatch enters
/// its context at most once at a time.
pub open spec fn guard_wf(g: GuardView) -> bool {
    &&& forall|i: int, j: int|
        0 <= i < j < g.queue.len() ==> g.queue[i] != g.queue[j]
    &&& g.active matches Some(a) ==> !g.queue.contains(a)
}

impl ContextGuard {
    /// A fresh guard for the given context: nothing queued, nothing inside.
    pub fn new(context: ContextToken) -> (g: ContextGuard)
        ensures
            guard_wf(g@),
            g@.context == context,
            g@.queue == Seq::<u64>::empty(),
            g@.active is None,
    {
        let g = ContextGuard { context, queue: Vec::new(), active: None };
        proof {
            assert(g@.queue =~= Seq::<u64>::empty());
        }
        g
    }

    /// Queue a dispatch for entry. Any number of dispatches may be queued
    /// while another is inside the context; posting changes nothing else.
    pub fn post(&mut self, dispatch: u64)
        requires
            guard_wf(old(self)@),
            !old(self)@.queue.contains(dispatch),
            !(old(self)@.active == Some(dispatch)),
            old(self)@.queue.len() < usize::MAX,
        ensures
            guard_wf(final(self)@),
            final(self)@.queue == old(self)@.queue.push(dispatch),
            final(self)@.active == old(self)@.active,
            final(self)@.context == old(self)@.context,
    {
        self.queue.push(dispatch);
    }

    /// The foreign runtime's own worker drains the queue: if the context is
    /// free and a dispatch is waiting, the one posted earliest enters and
    /// its scheduling is acknowledged. Otherwise nothing enters — entry
    /// into the context is serialized.
    pub fn enter_next(&mut self) -> (r: Option<u64>)
        requires
            guard_wf(old(self)@),
        ensures
            guard_wf(final(self)@),
            final(self)@.context == old(self)@.context,
            old(self)@.active is Some || old(self)@.queue.len() == 0 ==> r is None
                && final(self)@ == old(self)@,
            old(self)@.active is None && old(self)@.queue.len() > 0 ==> {
                &&& r == Some(old(self)@.queue[0])
                &&& final(self)@.active == Some(old(self)@.queue[0])
                &&& final(self)@.queue == old(self)@.queue.drop_first()
            },
    {
        match self.active {
            Some(_) => None,
            None => {
                if self.queue.len() > 0 {
                    let head = self.queue.remove(0);
                    self.active = Some(head);
                    proof {
                        assert(self@.queue =~= old(self)@.queue.drop_first());
                    }
                    Some(head)
                } else {
                    None
                }
            },
        }
    }

    /// The dispatch inside the context leaves it, freeing the context for
    /// the next queued entry. The queue is untouched.
    pub fn exit_context(&mut self, dispatch: u64)
        requires
            guard_wf(old(self)@),
            old(self)@.active == Some(dispatch),
        ensures
            guard_wf(final(self)@),
            final(self)@.active is None,
            final(self)@.queue == old(self)@.queue,
            final(self)@.context == old(self)@.context,
    {
        self.active = None;
    }
}

} // verus!
