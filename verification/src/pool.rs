//! Bounded session pool: a fixed number of slots sharing reusable sessions
//! across request workers.
//!
//! A caller identifier is reduced modulo the capacity to pick its slot, so
//! the same calling context keeps reaching the same session, and never more
//! sessions exist than there are slots.  Sessions are expensive to create
//! and creating one is the collaborator's work, so the pool only stores and
//! hands out sessions: a caller that finds its slot empty creates a session
//! outside and installs it.

use vstd::prelude::*;

verus! {

/// A fixed-capacity pool of reusable sessions, one slot per residue class
/// of caller identifiers.
pub struct SessionPool<S> {
    slots: Vec<Option<S>>,
}

impl<S> View for SessionPool<S> {
    type V = Seq<Option<S>>;

    closed spec fn view(&self) -> Seq<Option<S>> {
        self.slots@
    }
}

/// How many of the slots hold a live session.
pub open spec fn count_live<S>(slots: Seq<Option<S>>) -> nat
    decreases slots.len(),
{
    if slots.len() == 0 {
        0
    } else {
        count_live(slots.drop_last()) + if slots.last() is Some {
            1nat
        } else {
            0nat
        }
    }
}

/// No more slots are live than there are slots.
pub proof fn lemma_count_live_bounded<S>(slots: Seq<Option<S>>)
    ensures
        count_live(slots) <= slots.len(),
    decreases slots.len(),
{
    if slots.len() > 0 {
        lemma_count_live_bounded(slots.drop_last());
    }
}

impl<S> SessionPool<S> {
    /// The number of slots, fixed at construction.
    pub open spec fn capacity(self) -> nat {
        self@.len()
    }

    /// A usable pool has at least one slot.
    pub open spec fn wf(self) -> bool {
        self.capacity() > 0
    }

    /// The slot a caller identifier is assigned to: its residue modulo the
    /// capacity.
    pub open spec fn slot_of(self, caller_id: int) -> int {
        caller_id % (self.capacity() as int)
    }

    /// The number of live sessions the pool holds.
    pub open spec fn live_sessions(self) -> nat {
        count_live(self@)
    }

    /// Creates a pool of `capacity` empty slots.
    pub fn new(capacity: usize) -> (p: Self)
        requires
            capacity > 0,
        ensures
            p@.len() == capacity,
            forall|k: int| 0 <= k < capacity ==> p@[k] is None,
            p.wf(),
    {
        let mut slots: Vec<Option<S>> = Vec::new();
        let mut i: usize = 0;
        while i < capacity
            invariant
                i <= capacity,
                slots@.len() == i,
                forall|k: int| 0 <= k < i ==> slots@[k] is None,
            decreases capacity - i,
        {
            slots.push(None);
            i = i + 1;
        }
        SessionPool { slots }
    }

    /// The slot assigned to `caller_id`.
    pub fn slot_for(&self, caller_id: usize) -> (s: usize)
        requires
            self.wf(),
        ensures
            s == self.slot_of(caller_id as int),
            s < self@.len(),
    {
        caller_id % self.slots.len()
    }

    /// Whether the slot assigned to `caller_id` already holds a session.
    pub fn has_session(&self, caller_id: usize) -> (b: bool)
        requires
            self.wf(),
        ensures
            b == (self@[self.slot_of(caller_id as int)] is Some),
    {
        let s = self.slot_for(caller_id);
        self.slots[s].is_some()
    }

    /// Stores a freshly created session in the slot assigned to
    /// `caller_id`, leaving every other slot unchanged.
    pub fn install(&mut self, caller_id: usize, session: S)
        requires
            old(self).wf(),
        ensures
            final(self)@ == old(self)@.update(
                old(self).slot_of(caller_id as int),
                Some(session),
            ),
            final(self).wf(),
    {
        let s = self.slot_for(caller_id);
        self.slots.set(s, Some(session));
    }

    /// Hands out the session of the slot assigned to `caller_id`, if that
    /// slot holds one.
    pub fn acquire(&self, caller_id: usize) -> (r: Option<&S>)
        requires
            self.wf(),
        ensures
            (r is Some <==> self@[self.slot_of(caller_id as int)] is Some),
            r matches Some(session) ==> *session == self@[self.slot_of(caller_id as int)]->0,
    {
        let s = self.slot_for(caller_id);
        self.slots[s].as_ref()
    }

    /// Eagerly fills every slot, one provided session per slot, so that no
    /// later acquisition pays the creation cost.
    pub fn warm_up(&mut self, sessions: Vec<S>)
        requires
            old(self).wf(),
            sessions@.len() == old(self)@.len(),
        ensures
            final(self)@.len() == old(self)@.len(),
            forall|k: int| 0 <= k < final(self)@.len() ==> final(self)@[k] == Some(sessions@[k]),
    {
        let mut rest = sessions;
        proof {
            assert(rest@ =~= sessions@.take(rest@.len() as int));
        }
        while rest.len() > 0
            invariant
                self@.len() == old(self)@.len(),
                sessions@.len() == old(self)@.len(),
                rest@.len() <= self@.len(),
                rest@ == sessions@.take(rest@.len() as int),
                forall|k: int| rest@.len() <= k < self@.len() ==> self@[k] == Some(sessions@[k]),
            decreases rest@.len(),
        {
            let s = rest.pop().unwrap();
            let k = rest.len();
            proof {
                assert(rest@ =~= sessions@.take(k as int));
                assert(s == sessions@[k as int]);
            }
            self.slots.set(k, Some(s));
        }
    }
}

/// Caller identifiers with equal residue share one slot: acquiring with
/// either returns the very same session.
pub proof fn lemma_same_slot_same_session<S>(p: SessionPool<S>, i: int, j: int)
    requires
        p.wf(),
        i % (p.capacity() as int) == j % (p.capacity() as int),
    ensures
        p.slot_of(i) == p.slot_of(j),
        p@[p.slot_of(i)] == p@[p.slot_of(j)],
{
}

/// The pool never holds more live sessions than its capacity.
pub proof fn lemma_live_sessions_bounded<S>(p: SessionPool<S>)
    ensures
        p.live_sessions() <= p.capacity(),
{
    lemma_count_live_bounded(p@);
}

} // verus!
