//! Blocking-style reads and writes on an async stream: the stream is only touched while
//! a task context is installed, and without one every operation reports "would block".
use vstd::prelude::*;
use crate::poll::Async;

verus! {

/// A stream together with the task context of the poll in progress, if any. `C` is
/// whatever gives access to that context.
pub struct AllowStd<S, C> {
    /// The async stream.
    pub inner: S,
    /// The installed context: `None` when no poll is in progress.
    pub context: Option<C>,
}

impl<S, C> AllowStd<S, C> {
    /// Wraps a stream, with no context installed.
    pub fn new(inner: S) -> (res: Self)
        ensures
            res.inner == inner,
            res.context is None,
    {
        AllowStd { inner, context: None }
    }

    /// Installs (or, with `None`, removes) the task context.
    pub fn set_context(&mut self, context: Option<C>)
        ensures
            final(self).context == context,
            final(self).inner == old(self).inner,
    {
        self.context = context;
    }

    /// Runs `f` on the stream with the installed context. Without a context the stream
    /// is not touched and the operation is not ready.
    pub fn with_context<F, R>(&mut self, f: F) -> (res: Async<R>)
        where F: FnOnce(&C, &mut S) -> Async<R>,
        requires
            old(self).context matches Some(c) ==> forall|s: &mut S| f.requires((&c, s)),
        ensures
            old(self).context is None ==> res is NotReady && final(self).inner == old(self).inner,
            old(self).context matches Some(c) ==> exists|s: &mut S|
                *s == old(self).inner && *final(s) == final(self).inner && #[trigger] f.ensures((&c, s), res),
            final(self).context == old(self).context,
    {
        match &self.context {
            None => Async::NotReady,
            Some(c) => f(c, &mut self.inner),
        }
    }

    /// Runs a blocking-style operation: `f` with the installed context, and the error
    /// `would_block` when the operation is not ready (also when there is no context).
    pub fn with_context_or_would_block<F, T, E>(&mut self, f: F, would_block: E) -> (res: Result<T, E>)
        where F: FnOnce(&C, &mut S) -> Async<Result<T, E>>,
        requires
            old(self).context matches Some(c) ==> forall|s: &mut S| f.requires((&c, s)),
        ensures
            old(self).context is None ==> res == Err::<T, E>(would_block) && final(self).inner == old(self).inner,
            old(self).context matches Some(c) ==> exists|s: &mut S, p: Async<Result<T, E>>|
                *s == old(self).inner && *final(s) == final(self).inner && #[trigger] f.ensures((&c, s), p)
                    && res == blocking_result(p, would_block),
            final(self).context == old(self).context,
    {
        let p = self.with_context(f);
        ready_or_would_block(p, would_block)
    }

    /// The stream.
    pub fn get_ref(&self) -> (res: &S)
        ensures
            *res == self.inner,
    {
        &self.inner
    }

    /// The stream.
    pub fn get_mut(&mut self) -> (res: &mut S)
        ensures
            *res == old(self).inner,
            final(self).inner == *final(res),
            final(self).context == old(self).context,
    {
        &mut self.inner
    }
}

/// A poll result as the result of a blocking-style call: a ready result as it is,
/// "not ready" as the error `would_block`.
pub open spec fn blocking_result<T, E>(p: Async<Result<T, E>>, would_block: E) -> Result<T, E> {
    match p {
        Async::Ready(r) => r,
        Async::NotReady => Err(would_block),
    }
}

/// A poll result as the result of a blocking-style call: a ready result as it is,
/// "not ready" as the error `would_block`.
pub fn ready_or_would_block<T, E>(p: Async<Result<T, E>>, would_block: E) -> (res: Result<T, E>)
    ensures
        res == blocking_result(p, would_block),
{
    match p {
        Async::Ready(r) => r,
        Async::NotReady => Err(would_block),
    }
}

/// A blocking-style call returns what a ready operation gave, success or error, and the
/// "would block" error exactly when the operation was not ready.
pub proof fn lemma_blocking_result_meaning<T, E>(r: Result<T, E>, would_block: E)
    ensures
        blocking_result(Async::Ready(r), would_block) == r,
        blocking_result(Async::<Result<T, E>>::NotReady, would_block) == Err::<T, E>(would_block),
{
}

} // verus!
