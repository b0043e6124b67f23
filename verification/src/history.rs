//! The bounded per-object history of past values of one tracked type.

use vstd::prelude::*;

verus! {

/// One bounded capture step: `value` is appended at the tail and, if the
/// bound is now exceeded, exactly one entry is evicted from the head, so the
/// oldest entry is dropped and the remaining entries keep their order.
pub open spec fn push_bounded<C>(entries: Seq<C>, value: C, max_capture_count: nat) -> Seq<C> {
    let grown = entries.push(value);
    if grown.len() > max_capture_count {
        grown.drop_first()
    } else {
        grown
    }
}

/// Bounded record of past values of one tracked type for one live object:
/// append-only at the tail during capture, consumed from the tail during
/// rewind (LIFO, most recent first).
pub struct RewindComponent<C> {
    history: Vec<C>,
}

impl<C> View for RewindComponent<C> {
    type V = Seq<C>;

    closed spec fn view(&self) -> Seq<C> {
        self.history@
    }
}

impl<C> RewindComponent<C> {
    /// A fresh, empty history: an object carries one from the moment it is
    /// marked trackable.
    pub fn new() -> (r: Self)
        ensures
            r@ == Seq::<C>::empty(),
    {
        RewindComponent { history: Vec::new() }
    }

    /// Number of entries currently retained.
    pub fn len(&self) -> (n: usize)
        ensures
            n == self@.len(),
    {
        self.history.len()
    }

    /// Append at the tail; if the length now exceeds `max_capture_count`,
    /// remove exactly one entry from the head (the oldest).
    pub fn push(&mut self, value: C, max_capture_count: usize)
        ensures
            final(self)@ == push_bounded(old(self)@, value, max_capture_count as nat),
    {
        self.history.push(value);
        if self.history.len() > max_capture_count {
            self.history.remove(0);
            proof {
                assert(self@ =~= push_bounded(old(self)@, value, max_capture_count as nat));
            }
        }
    }

    /// Remove and return the tail entry, the most recently captured value;
    /// exhaustion is an explicit empty result, never a failure.
    pub fn pop(&mut self) -> (r: Option<C>)
        ensures
            old(self)@.len() > 0 ==> r == Some(old(self)@.last()) && final(self)@ == old(
                self,
            )@.drop_last(),
            old(self)@.len() == 0 ==> r == None::<C> && final(self)@ == old(self)@,
    {
        self.history.pop()
    }
}

impl<C> Default for RewindComponent<C> {
    /// The default history is empty.
    fn default() -> (r: Self)
        ensures
            r@ == Seq::<C>::empty(),
    {
        RewindComponent { history: Vec::new() }
    }
}

} // verus!
