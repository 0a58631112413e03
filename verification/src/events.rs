//! The caller-supplied buffer that a wait fills with events.

use vstd::prelude::*;

verus! {

/// An ordered sequence of events with a fixed capacity. The capacity is set
/// when the buffer is made and bounds how many events one wait can report;
/// only the length ever changes afterwards.
#[derive(Debug)]
pub struct Events<E> {
    entries: Vec<E>,
    limit: usize,
}

impl<E> View for Events<E> {
    type V = Seq<E>;

    closed spec fn view(&self) -> Seq<E> {
        self.entries@
    }
}

/// The smaller of two numbers.
pub open spec fn least(a: int, b: int) -> int {
    if a <= b {
        a
    } else {
        b
    }
}

/// How many events a wait hands to a buffer of the given capacity, when the
/// kernel reported `n` events and wrote `ready` of them: as many as were
/// reported, but no more than were written or than the buffer has room for.
pub open spec fn admitted(n: int, ready: int, capacity: int) -> int {
    least(n, least(ready, capacity))
}

impl<E> Events<E> {
    #[verifier::type_invariant]
    closed spec fn bounded(self) -> bool {
        self.entries@.len() <= self.limit
    }

    /// The most events this buffer will ever hold.
    pub closed spec fn spec_capacity(&self) -> usize {
        self.limit
    }

    /// An empty buffer that can take up to `capacity` events.
    pub fn with_capacity(capacity: usize) -> (events: Self)
        ensures
            events@ == Seq::<E>::empty(),
            events.capacity() == capacity,
    {
        Events { entries: Vec::new(), limit: capacity }
    }

    /// The most events this buffer will ever hold.
    #[verifier::when_used_as_spec(spec_capacity)]
    pub fn capacity(&self) -> (capacity: usize)
        ensures
            capacity == self.spec_capacity(),
            self@.len() <= capacity,
    {
        proof {
            use_type_invariant(self);
        }
        self.limit
    }

    /// The number of events held.
    pub fn len(&self) -> (len: usize)
        ensures
            len == self@.len(),
            len <= self.capacity(),
    {
        proof {
            use_type_invariant(self);
        }
        self.entries.len()
    }

    /// Whether no event is held.
    pub fn is_empty(&self) -> (empty: bool)
        ensures
            empty == (self@.len() == 0),
    {
        self.entries.len() == 0
    }

    /// The event at position `index`, if there is one.
    pub fn get(&self, index: usize) -> (event: Option<&E>)
        ensures
            index < self@.len() ==> event == Some(&self@[index as int]),
            index >= self@.len() ==> event is None,
    {
        if index < self.entries.len() {
            Some(&self.entries[index])
        } else {
            None
        }
    }

    /// The events held, in order.
    pub fn as_slice(&self) -> (slice: &[E])
        ensures
            slice@ == self@,
    {
        self.entries.as_slice()
    }

    /// Drops every event; the capacity stays.
    pub fn clear(&mut self)
        ensures
            final(self)@ == Seq::<E>::empty(),
            final(self).capacity() == old(self).capacity(),
    {
        self.entries = Vec::new();
    }

    /// Replaces the contents with the leading events of `ready`: as many as
    /// `n` says, but never more than `ready` holds or the capacity allows.
    pub fn fill(&mut self, ready: Vec<E>, n: usize)
        ensures
            final(self)@ == ready@.take(
                admitted(n as int, ready@.len() as int, old(self).capacity() as int),
            ),
            final(self)@.len() <= final(self).capacity(),
            final(self).capacity() == old(self).capacity(),
    {
        let mut ready = ready;
        let mut keep: usize = n;
        if ready.len() < keep {
            keep = ready.len();
        }
        if self.limit < keep {
            keep = self.limit;
        }
        ready.truncate(keep);
        self.entries = ready;
    }
}

} // verus!
