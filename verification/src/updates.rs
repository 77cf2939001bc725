//! A finite, forward-only, single-pass sequence of update items.
//!
//! An observable hands one of these to an observer's `on_updates` call.  The
//! consumer may only walk it forward with [`UpdateStream::next`]: there is no
//! peeking, no rewinding, and no way to learn the length short of walking the
//! whole stream.

use vstd::prelude::*;

verus! {

/// A single-pass stream of update items.
///
/// The view of a stream is the sequence of items that have not been taken
/// yet, in the order in which [`UpdateStream::next`] will yield them.  Each
/// item is yielded exactly once: `next` returns the first remaining item and
/// drops it from the stream, so no item can be seen twice and none can be
/// skipped.
pub struct UpdateStream<T> {
    items: Vec<T>,
}

impl<T> View for UpdateStream<T> {
    type V = Seq<T>;

    closed spec fn view(&self) -> Seq<T> {
        self.items@
    }
}

impl<T> UpdateStream<T> {
    /// Build a stream that yields the elements of `items` in order.
    pub fn new(items: Vec<T>) -> (s: Self)
        ensures
            s@ == items@,
    {
        UpdateStream { items }
    }

    /// Take the next item, if any.
    ///
    /// On a non-empty stream this yields the first remaining item and
    /// removes it; on an exhausted stream it yields `None` and leaves the
    /// stream untouched.
    pub fn next(&mut self) -> (item: Option<T>)
        ensures
            old(self)@.len() == 0 ==> item is None && *final(self) == *old(self),
            old(self)@.len() > 0 ==> item == Some(old(self)@[0]) && final(self)@ == old(self)@.drop_first(),
    {
        if self.items.len() == 0 {
            None
        } else {
            let item = self.items.remove(0);
            proof {
                assert(self.items@ =~= old(self)@.drop_first());
            }
            Some(item)
        }
    }
}

} // verus!
