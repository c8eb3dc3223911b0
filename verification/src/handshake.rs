//! A WebSocket handshake that may be interrupted because its stream would block, and is
//! resumed each time it is polled.
use vstd::prelude::*;
use crate::poll::Async;

verus! {

/// The outcome of one attempt at a handshake.
pub enum HandshakeOutcome<R, M, E> {
    /// The handshake completed with this result.
    Done(R),
    /// The handshake failed with this error.
    Failed(E),
    /// The stream would block; this is the handshake in the middle, to be resumed.
    Interrupted(M),
}

/// What polling reports for an outcome: a result is ready, an error is returned, an
/// interruption means "not ready".
pub open spec fn poll_result<R, M, E>(o: HandshakeOutcome<R, M, E>) -> Result<Async<R>, E> {
    match o {
        HandshakeOutcome::Done(r) => Ok(Async::Ready(r)),
        HandshakeOutcome::Failed(e) => Err(e),
        HandshakeOutcome::Interrupted(_) => Ok(Async::NotReady),
    }
}

/// What is kept after an outcome: only an interrupted handshake, to be resumed.
pub open spec fn kept_after<R, M, E>(o: HandshakeOutcome<R, M, E>) -> Option<HandshakeOutcome<R, M, E>> {
    match o {
        HandshakeOutcome::Interrupted(_) => Some(o),
        _ => None,
    }
}

/// A handshake in progress, polled until it completes or fails.
pub struct MidHandshake<R, M, E> {
    inner: Option<HandshakeOutcome<R, M, E>>,
}

impl<R, M, E> MidHandshake<R, M, E> {
    /// What the handshake holds: the outcome of its last attempt, or nothing once that
    /// outcome was handed out.
    pub closed spec fn state(&self) -> Option<HandshakeOutcome<R, M, E>> {
        self.inner
    }

    /// A handshake whose first attempt had this outcome.
    pub fn new(first: HandshakeOutcome<R, M, E>) -> (res: Self)
        ensures
            res.state() == Some(first),
    {
        MidHandshake { inner: Some(first) }
    }

    /// Whether the handshake can still be polled.
    pub fn is_pending(&self) -> (res: bool)
        ensures
            res == (self.state() is Some),
    {
        self.inner.is_some()
    }

    /// Polls the handshake. A completed or failed first attempt is reported as it is. An
    /// interrupted one is resumed once with `resume`; what that gives is reported, and
    /// if it was interrupted again it is kept for the next poll. A handshake whose
    /// outcome was handed out cannot be polled again.
    pub fn poll<F: FnOnce(M) -> HandshakeOutcome<R, M, E>>(&mut self, resume: F) -> (res: Result<Async<R>, E>)
        requires
            old(self).state() is Some,
            old(self).state() matches Some(HandshakeOutcome::Interrupted(m)) ==> resume.requires((m,)),
        ensures
            match old(self).state() {
                Some(HandshakeOutcome::Interrupted(m)) => exists|o: HandshakeOutcome<R, M, E>|
                    #[trigger] resume.ensures((m,), o) && res == poll_result(o) && final(self).state() == kept_after(o),
                Some(first) => res == poll_result(first) && final(self).state() is None,
                None => false,
            },
    {
        let current = self.inner.take();
        match current {
            Some(HandshakeOutcome::Done(r)) => Ok(Async::Ready(r)),
            Some(HandshakeOutcome::Failed(e)) => Err(e),
            Some(HandshakeOutcome::Interrupted(m)) => {
                let next = resume(m);
                let ghost o = next;
                match next {
                    HandshakeOutcome::Done(r) => Ok(Async::Ready(r)),
                    HandshakeOutcome::Failed(e) => Err(e),
                    HandshakeOutcome::Interrupted(m2) => {
                        self.inner = Some(HandshakeOutcome::Interrupted(m2));
                        proof {
                            assert(self.state() == kept_after(o));
                        }
                        Ok(Async::NotReady)
                    },
                }
            },
            None => Ok(Async::NotReady),
        }
    }
}

/// A handshake hands out its result or its error exactly once: after a poll that
/// reports a result or an error nothing is kept, so a further poll is refused (`poll`
/// requires a kept outcome); only after "not ready" is an interrupted handshake kept and
/// may be polled again.
pub proof fn lemma_outcome_handed_out_once<R, M, E>(o: HandshakeOutcome<R, M, E>)
    ensures
        poll_result(o) == Ok::<Async<R>, E>(Async::NotReady) <==> kept_after(o) is Some,
        poll_result(o) != Ok::<Async<R>, E>(Async::NotReady) ==> kept_after(o) is None,
        kept_after(o) matches Some(k) ==> k is Interrupted,
{
}

/// After a poll that reported a result or an error, the handshake cannot be polled
/// again: whatever the first outcome and whatever resuming gave, nothing is kept.
pub proof fn lemma_no_poll_after_result<R, M, E>(first: HandshakeOutcome<R, M, E>, resumed: HandshakeOutcome<R, M, E>)
    ensures
        !(first is Interrupted) ==> kept_after(first) is None,
        poll_result(resumed) != Ok::<Async<R>, E>(Async::NotReady) ==> kept_after(resumed) is None,
{
}

/// What a poll reports for each outcome of an attempt: a completed handshake is ready
/// with its result, a failed one returns its error, and an interrupted one is not ready
/// and is kept exactly as it was, to be resumed by the next poll.
pub proof fn lemma_poll_reports_the_outcome<R, M, E>(r: R, m: M, e: E)
    ensures
        poll_result(HandshakeOutcome::<R, M, E>::Done(r)) == Ok::<Async<R>, E>(Async::Ready(r)),
        poll_result(HandshakeOutcome::<R, M, E>::Failed(e)) == Err::<Async<R>, E>(e),
        poll_result(HandshakeOutcome::<R, M, E>::Interrupted(m)) == Ok::<Async<R>, E>(Async::NotReady),
        kept_after(HandshakeOutcome::<R, M, E>::Interrupted(m)) == Some(HandshakeOutcome::<R, M, E>::Interrupted(m)),
        kept_after(HandshakeOutcome::<R, M, E>::Done(r)) is None,
        kept_after(HandshakeOutcome::<R, M, E>::Failed(e)) is None,
{
}

} // verus!
