//! A shared, mutually-exclusive handle to one observer.
//!
//! Wrapping an observer yields a handle that can be cloned cheaply; every
//! clone refers to the same underlying observer, kept behind a verified
//! reader-writer lock.  The underlying instance lives as long as any handle
//! does.  Each lifecycle call acquires exclusive access for its whole
//! duration, so no two calls ever execute against the underlying observer at
//! the same time, whichever handles they came through.  A call made while
//! another handle holds access blocks until that access is released; there
//! is no timeout and no reentrancy guard, so an observer must not call back
//! into its own handle.  Errors of the underlying observer pass through
//! unchanged; a panic in the underlying observer, though, leaves its access
//! held for good, which is fatal to every handle — a programming error this
//! layer does not try to recover from.

use std::sync::Arc;

use vstd::prelude::*;
use vstd::rwlock::RwLock;
use vstd::rwlock::RwLockPredicate;

use crate::observer::Observer;
use crate::updates::UpdateStream;

verus! {

/// The lock predicate of a shared observer: every observer state may sit in
/// the lock, since this layer imposes no invariant of its own on the
/// wrapped observer.
pub struct AnyObserver;

impl<O> RwLockPredicate<O> for AnyObserver {
    open spec fn inv(self, v: O) -> bool {
        true
    }
}

/// Relies on `std::sync::Arc::clone`: the new `Arc` refers to the same
/// allocation as `v`, so it carries the same value.
#[verifier::external_body]
fn clone_arc<T>(v: &Arc<T>) -> (res: Arc<T>)
    ensures
        res == *v,
{
    Arc::clone(v)
}

/// A cloneable handle to one observer shared under mutual exclusion.
///
/// All handles cloned from one another observe a single logical observer:
/// cloning copies the reference, never the underlying state.
pub struct SharedObserver<O> {
    inner: Arc<RwLock<O, AnyObserver>>,
}

impl<O> SharedObserver<O> {
    /// The lock this handle refers to.  Two handles with equal locks drive
    /// one and the same underlying observer.
    pub closed spec fn lock(&self) -> Arc<RwLock<O, AnyObserver>> {
        self.inner
    }

    /// Wrap `observer` so that it can be shared across many owners.
    pub fn new(observer: O) -> Self {
        SharedObserver { inner: Arc::new(RwLock::new(observer, Ghost(AnyObserver))) }
    }
}

impl<O: Clone> SharedObserver<O> {
    /// A copy of the underlying observer as it stands right now.
    ///
    /// The copy is taken under the lock, so it reflects a single instant
    /// between lifecycle calls.  Nothing is claimed of the copy's contents:
    /// what sits in the lock depends on every call made through every
    /// handle so far, and copying is the observer type's own business.
    pub fn snapshot(&self) -> O {
        let read_handle = self.inner.acquire_read();
        let observer = read_handle.borrow().clone();
        read_handle.release_read();
        observer
    }
}

impl<O> Clone for SharedObserver<O> {
    /// Produce another handle to the same underlying observer: state
    /// mutated through either handle is seen by the next call made through
    /// the other.
    fn clone(&self) -> (res: Self)
        ensures
            res.lock() == self.lock(),
    {
        SharedObserver { inner: clone_arc(&self.inner) }
    }
}

impl<O, T, E> Observer<T, E> for SharedObserver<O> where O: Observer<T, E>, T: Send, E: Send {
    /// Forward `on_start` to the underlying observer under the lock and
    /// return its result unchanged.
    fn on_start(&mut self) -> (r: Result<(), E>)
        ensures
            *final(self) == *old(self),
    {
        let (mut observer, handle) = self.inner.acquire_write();
        let r = observer.on_start();
        handle.release_write(observer);
        r
    }

    /// Forward `on_commit` to the underlying observer under the lock and
    /// return its result unchanged.
    fn on_commit(&mut self) -> (r: Result<(), E>)
        ensures
            *final(self) == *old(self),
    {
        let (mut observer, handle) = self.inner.acquire_write();
        let r = observer.on_commit();
        handle.release_write(observer);
        r
    }

    /// Forward `on_updates` to the underlying observer under the lock and
    /// return its result unchanged.  The stream ends up exactly as the
    /// underlying observer left it.
    fn on_updates(&mut self, updates: &mut UpdateStream<T>) -> (r: Result<(), E>)
        ensures
            *final(self) == *old(self),
    {
        let (mut observer, handle) = self.inner.acquire_write();
        let r = observer.on_updates(updates);
        handle.release_write(observer);
        r
    }

    /// Forward `on_completed` to the underlying observer under the lock and
    /// return its result unchanged.
    fn on_completed(&mut self) -> (r: Result<(), E>)
        ensures
            *final(self) == *old(self),
    {
        let (mut observer, handle) = self.inner.acquire_write();
        let r = observer.on_completed();
        handle.release_write(observer);
        r
    }

    /// Forward `on_error` to the underlying observer under the lock.
    fn on_error(&self, error: E) {
        let (observer, handle) = self.inner.acquire_write();
        observer.on_error(error);
        handle.release_write(observer);
    }
}

} // verus!
