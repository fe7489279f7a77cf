use vstd::prelude::*;

use crate::future::SimpleFuture;
use crate::poll::Poll;
use crate::socket::Waker;

verus! {

/// What the driving thread does after one step.
pub enum Step<T> {
    /// The root future finished with this value; it is never polled again.
    Finished(T),
    /// Suspend until the executor's waker is invoked.
    Park,
}

/// Drives one root future: it polls the future while it is runnable, and
/// tells the driving thread to park between a `Pending` and the next wake.
pub struct Executor<F> {
    future: F,
    waker: Waker,
    runnable: bool,
    finished: bool,
    polls: u64,
    suspensions: u64,
}

impl<F: SimpleFuture> Executor<F> {
    pub closed spec fn root(&self) -> F {
        self.future
    }

    pub closed spec fn waker_spec(&self) -> Waker {
        self.waker
    }

    /// The next step polls the root future.
    pub closed spec fn is_runnable(&self) -> bool {
        self.runnable
    }

    /// The root future has returned `Ready`.
    pub closed spec fn is_finished(&self) -> bool {
        self.finished
    }

    pub closed spec fn poll_count(&self) -> nat {
        self.polls as nat
    }

    pub closed spec fn suspension_count(&self) -> nat {
        self.suspensions as nat
    }

    pub open spec fn wf(&self) -> bool {
        self.root().inv() && self.root().completed() == self.is_finished()
    }

    /// An executor for `future` whose wake handle is `waker`; the first step
    /// polls.
    pub fn new(future: F, waker: Waker) -> (r: Self)
        requires
            future.inv(),
            !future.completed(),
        ensures
            r.wf(),
            r.root() == future,
            r.waker_spec() == waker,
            r.is_runnable(),
            !r.is_finished(),
            r.poll_count() == 0,
            r.suspension_count() == 0,
    {
        Executor { future, waker, runnable: true, finished: false, polls: 0, suspensions: 0 }
    }

    /// One turn of the driver loop. A runnable executor polls the root
    /// future once; on `Ready` it finishes with the value, on `Pending` it
    /// parks until woken. One that is not runnable parks without polling.
    pub fn step(&mut self) -> (r: Step<F::Output>)
        requires
            old(self).wf(),
            !old(self).is_finished(),
            old(self).poll_count() < u64::MAX,
            old(self).suspension_count() < u64::MAX,
        ensures
            final(self).wf(),
            final(self).waker_spec() == old(self).waker_spec(),
            !final(self).is_runnable(),
            final(self).is_finished() == (r is Finished),
            old(self).is_runnable() ==> final(self).poll_count() == old(self).poll_count() + 1,
            old(self).is_runnable() ==> ((r is Finished) == old(self).root().ready()),
            old(self).is_runnable() ==> old(self).root().polled_to(
                old(self).waker_spec(),
                final(self).root(),
                match r {
                    Step::Finished(v) => Poll::Ready(v),
                    Step::Park => Poll::Pending,
                },
            ),
            !old(self).is_runnable() ==> r is Park && final(self).root() == old(self).root()
                && final(self).poll_count() == old(self).poll_count(),
            r is Park ==> final(self).suspension_count() == old(self).suspension_count() + 1,
            r is Finished ==> final(self).suspension_count() == old(self).suspension_count(),
    {
        if !self.runnable {
            self.suspensions = self.suspensions + 1;
            return Step::Park;
        }
        self.polls = self.polls + 1;
        self.runnable = false;
        match self.future.poll(self.waker) {
            Poll::Ready(v) => {
                self.finished = true;
                Step::Finished(v)
            },
            Poll::Pending => {
                self.suspensions = self.suspensions + 1;
                Step::Park
            },
        }
    }

    /// A resource invokes `w`: the executor becomes runnable when `w` is its
    /// own wake handle. Other handles are ignored.
    pub fn wake(&mut self, w: Waker)
        ensures
            final(self).is_runnable() == (old(self).is_runnable() || w == old(self).waker_spec()),
            final(self).root() == old(self).root(),
            final(self).waker_spec() == old(self).waker_spec(),
            final(self).is_finished() == old(self).is_finished(),
            final(self).poll_count() == old(self).poll_count(),
            final(self).suspension_count() == old(self).suspension_count(),
    {
        if w == self.waker {
            self.runnable = true;
        }
    }

    /// The root future, for its owner to inspect or feed between steps.
    pub fn future_mut(&mut self) -> (r: &mut F)
        ensures
            *r == old(self).root(),
            final(self).root() == *final(r),
            final(self).waker_spec() == old(self).waker_spec(),
            final(self).is_runnable() == old(self).is_runnable(),
            final(self).is_finished() == old(self).is_finished(),
            final(self).poll_count() == old(self).poll_count(),
            final(self).suspension_count() == old(self).suspension_count(),
    {
        &mut self.future
    }

    pub fn waker(&self) -> (r: Waker)
        ensures
            r == self.waker_spec(),
    {
        self.waker
    }

    pub fn is_done(&self) -> (r: bool)
        ensures
            r == self.is_finished(),
    {
        self.finished
    }

    pub fn polls(&self) -> (r: u64)
        ensures
            r == self.poll_count(),
    {
        self.polls
    }

    pub fn suspensions(&self) -> (r: u64)
        ensures
            r == self.suspension_count(),
    {
        self.suspensions
    }
}

} // verus!
