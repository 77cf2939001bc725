//! The observer lifecycle capability.
//!
//! An external observable drives an observer through a fixed lifecycle:
//! `on_start` before any data, one or more `on_updates` batches, `on_commit`
//! when a set of batches becomes authoritative, `on_completed` exactly once
//! at the end, and `on_error` at any point as a best-effort notification.
//! After any fallible call reports an error, the observable is expected to
//! stop driving the session; that duty lies with the observable and is not
//! enforced here.

use vstd::prelude::*;

use crate::updates::UpdateStream;

verus! {

/// A consumer of lifecycle notifications from an observable.
///
/// `T` is the type of each update item, `E` the error type surfaced on
/// failure; both are opaque to this layer.  Implementors own whatever state
/// the notifications act upon.  Any implementor must be safe to hand across
/// threads, so it may not rely on thread-local state.
pub trait Observer<T: Send, E: Send>: Sized {
    /// Prepare to receive data.  An error means the observer cannot accept
    /// the session, and the observable must not proceed to send updates.
    fn on_start(&mut self) -> Result<(), E>;

    /// Accept that the updates delivered so far are authoritative.  An error
    /// means commit-time validation or flushing failed.
    fn on_commit(&mut self) -> Result<(), E>;

    /// Process one batch of incoming items.
    ///
    /// The batch is a single-pass stream: it can only be walked forward, and
    /// an implementation must either consume it fully or fail.  An empty
    /// batch must succeed and must leave both the observer and the stream
    /// exactly as they were.
    fn on_updates(&mut self, updates: &mut UpdateStream<T>) -> (r: Result<(), E>)
        ensures
            r is Ok ==> final(updates)@.len() == 0,
            old(updates)@.len() == 0 ==> r is Ok && *final(self) == *old(self) && *final(updates)
                == *old(updates),
    ;

    /// Release whatever the session holds; the observable will send no
    /// further data.  An error means cleanup failed.
    fn on_completed(&mut self) -> Result<(), E>;

    /// Note that the observable ran into `error`.  Purely informational:
    /// this takes the observer by shared reference and returns nothing, so
    /// it can neither mutate observer state nor steer the observable's
    /// control flow through a result.
    fn on_error(&self, error: E);
}

} // verus!
