//! Executor adapter around `async_executor::Executor`.

use async_executor::Executor;
use std::future::Future;
use vstd::prelude::*;

verus! {

/// `async_executor::Executor`, the scheduler that spawned futures run on.
#[verifier::external_type_specification]
#[verifier::external_body]
pub struct ExExecutor<'a>(async_executor::Executor<'a>);

/// Calls `async_executor::Executor::spawn` and then `async_task::Task::detach`
/// on the handle that it returns. Nothing is claimed of either: when the
/// future runs is the scheduler's business.
#[verifier::external_body]
fn spawn_detached<'a, Fut>(executor: &Executor<'a>, fut: Fut)
    where
        Fut: Future + Send + 'a,
        Fut::Output: Send + 'a,
{
    executor.spawn(fut).detach();
}

/// Use an `async-executor` executor to run futures for `hyper`.
///
/// It owns exactly one value, something that refers to an executor, and adds
/// no state to it.
#[derive(Debug)]
pub struct SmolExecutor<E: ?Sized>(E);

impl<E: ?Sized> SmolExecutor<E> {
    /// The wrapped value.
    pub closed spec fn inner(&self) -> &E {
        &self.0
    }

    /// Get a reference to the underlying executor.
    pub fn get_ref(&self) -> (inner: &E)
        ensures
            inner == self.inner(),
    {
        &self.0
    }

    /// Get a mutable reference to the underlying executor.
    pub fn get_mut(&mut self) -> (inner: &mut E)
        ensures
            &*inner == old(self).inner(),
            final(self).inner() == &*final(inner),
    {
        &mut self.0
    }
}

impl<E> SmolExecutor<E> {
    /// The wrapper that holds `inner`.
    pub closed spec fn wrapping(inner: E) -> Self {
        SmolExecutor(inner)
    }

    /// Create a new `SmolExecutor` around something that refers to an executor.
    pub fn new(inner: E) -> (s: Self)
        ensures
            s == Self::wrapping(inner),
            *s.inner() == inner,
    {
        SmolExecutor(inner)
    }

    /// Get the inner type.
    pub fn into_inner(self) -> (inner: E)
        ensures
            inner == *self.inner(),
    {
        self.0
    }

    /// A wrapper holds the value it was made around and nothing else: two
    /// wrappers around the same value are the same wrapper.
    pub proof fn lemma_wrapping(inner: E, other: Self)
        ensures
            *Self::wrapping(inner).inner() == inner,
            *other.inner() == inner ==> other == Self::wrapping(inner),
    {
    }
}

impl<E> From<E> for SmolExecutor<E> {
    fn from(inner: E) -> (s: Self)
        ensures
            *s.inner() == inner,
    {
        SmolExecutor(inner)
    }
}

impl<E> vstd::std_specs::convert::FromSpecImpl<E> for SmolExecutor<E> {
    open spec fn obeys_from_spec() -> bool {
        true
    }

    open spec fn from_spec(inner: E) -> Self {
        Self::wrapping(inner)
    }
}

impl<E: Clone> Clone for SmolExecutor<E> {
    fn clone(&self) -> (s: Self)
        ensures
            cloned(*self.inner(), *s.inner()),
    {
        SmolExecutor(self.0.clone())
    }
}

impl<E: ?Sized> AsRef<E> for SmolExecutor<E> {
    fn as_ref(&self) -> (inner: &E)
        ensures
            inner == self.inner(),
    {
        self.get_ref()
    }
}

impl<E: ?Sized> AsMut<E> for SmolExecutor<E> {
    fn as_mut(&mut self) -> (inner: &mut E)
        ensures
            &*inner == old(self).inner(),
            final(self).inner() == &*final(inner),
    {
        self.get_mut()
    }
}

/// Place the future into the executor to be run, and keep no handle to it:
/// the caller gets neither its output nor a way to cancel it.
///
/// `executor` is what the value inside a [`SmolExecutor`] refers to. When the
/// future runs, and on which thread, is up to the executor.
pub fn execute<'a, Fut>(executor: &Executor<'a>, fut: Fut)
    where
        Fut: Future + Send + 'a,
        Fut::Output: Send + 'a,
{
    spawn_detached(executor, fut)
}

} // verus!
