//! An observer that records every notification it receives.
//!
//! Each lifecycle call appends an [`Event`] to an internal log, so the log
//! tells, after the fact, which calls ran, in which order, and with which
//! payloads.  It also serves as a verified witness that the observer
//! contract can be met: its `on_updates` provably takes every item of the
//! batch exactly once, in stream order.

use core::marker::PhantomData;

use vstd::prelude::*;

use crate::observer::Observer;
use crate::updates::UpdateStream;

verus! {

/// One recorded lifecycle notification.
///
/// `on_error` takes the observer by shared reference, so it cannot append
/// to the log and has no event here.
#[derive(Clone, Debug, PartialEq, Eq)]
pub enum Event<T> {
    /// `on_start` ran.
    Start,
    /// `on_updates` took this item from its batch.
    Update(T),
    /// `on_commit` ran.
    Commit,
    /// `on_completed` ran.
    Completed,
}

/// The events that recording a whole batch of update items appends.
pub open spec fn update_events<T>(items: Seq<T>) -> Seq<Event<T>> {
    items.map_values(|t: T| Event::Update(t))
}

/// An observer whose only state is the log of what it has been told.
///
/// Its view is the sequence of recorded events.  Every fallible lifecycle
/// method succeeds and appends exactly what it was given, so the final log
/// is a faithful trace of the calls made.  `E` is the error type it answers
/// with; since no method of this observer ever fails, the type only names
/// what a failure would have looked like.
#[derive(Debug)]
pub struct RecordingObserver<T, E> {
    log: Vec<Event<T>>,
    errors: PhantomData<E>,
}

impl<T: Clone, E> Clone for RecordingObserver<T, E> {
    /// An observer holding a copy of the log.  Nothing is claimed of the
    /// copy's contents, since copying an item is the item type's own
    /// business.
    fn clone(&self) -> Self {
        RecordingObserver { log: self.log.clone(), errors: PhantomData }
    }
}

impl<T, E> View for RecordingObserver<T, E> {
    type V = Seq<Event<T>>;

    closed spec fn view(&self) -> Seq<Event<T>> {
        self.log@
    }
}

impl<T, E> RecordingObserver<T, E> {
    /// An observer with an empty log.
    pub fn new() -> (o: Self)
        ensures
            o@ == Seq::<Event<T>>::empty(),
    {
        RecordingObserver { log: Vec::new(), errors: PhantomData }
    }

    /// The events recorded so far, oldest first.
    pub fn log(&self) -> (log: &Vec<Event<T>>)
        ensures
            log@ == self@,
    {
        &self.log
    }
}

impl<T: Send, E: Send> Observer<T, E> for RecordingObserver<T, E> {
    /// Record that the session started.
    fn on_start(&mut self) -> (r: Result<(), E>)
        ensures
            r == Ok::<(), E>(()),
            final(self)@ == old(self)@.push(Event::Start),
    {
        self.log.push(Event::Start);
        Ok(())
    }

    /// Record that the updates so far were committed.
    fn on_commit(&mut self) -> (r: Result<(), E>)
        ensures
            r == Ok::<(), E>(()),
            final(self)@ == old(self)@.push(Event::Commit),
    {
        self.log.push(Event::Commit);
        Ok(())
    }

    /// Record every item of the batch, exactly once and in stream order,
    /// leaving the batch exhausted.
    fn on_updates(&mut self, updates: &mut UpdateStream<T>) -> (r: Result<(), E>)
        ensures
            r == Ok::<(), E>(()),
            final(self)@ == old(self)@ + update_events(old(updates)@),
            final(updates)@.len() == 0,
    {
        let ghost self0 = *self;
        let ghost stream0 = *updates;
        let ghost mut seen: Seq<T> = Seq::empty();
        loop
            invariant
                stream0@ == seen + updates@,
                self@ == self0@ + update_events(seen),
                seen.len() == 0 ==> *self == self0 && *updates == stream0,
            ensures
                updates@.len() == 0,
                stream0@ == seen + updates@,
                self@ == self0@ + update_events(seen),
                seen.len() == 0 ==> *self == self0 && *updates == stream0,
            decreases updates@.len(),
        {
            match updates.next() {
                None => { break ; },
                Some(item) => {
                    self.log.push(Event::Update(item));
                    proof {
                        let prev = seen;
                        seen = seen.push(item);
                        assert(update_events(seen) =~= update_events(prev).push(
                            Event::Update(item),
                        ));
                        assert(stream0@ =~= seen + updates@);
                        assert(self@ =~= self0@ + update_events(seen));
                    }
                },
            }
        }
        proof {
            assert(seen =~= stream0@);
        }
        Ok(())
    }

    /// Record that the session completed.
    fn on_completed(&mut self) -> (r: Result<(), E>)
        ensures
            r == Ok::<(), E>(()),
            final(self)@ == old(self)@.push(Event::Completed),
    {
        self.log.push(Event::Completed);
        Ok(())
    }

    /// Nothing to do: a shared reference cannot reach the log, and this
    /// notification asks for no answer.
    fn on_error(&self, _error: E) {
    }
}

} // verus!
