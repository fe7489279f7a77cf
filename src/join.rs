use vstd::prelude::*;

use crate::future::SimpleFuture;
use crate::poll::Poll;
use crate::socket::Waker;

verus! {

/// A slot holds an active future, or nothing once that future has finished.
pub open spec fn slot_ok<F: SimpleFuture>(slot: Option<F>) -> bool {
    match slot {
        Some(f) => f.inv() && !f.completed(),
        None => true,
    }
}

/// A poll of the slot finishes whatever it still holds.
pub open spec fn slot_ready<F: SimpleFuture>(slot: Option<F>) -> bool {
    match slot {
        Some(f) => f.ready(),
        None => true,
    }
}

/// Polls the future in `slot`, if any, and clears the slot when it returns
/// `Ready`. Returns whether the slot is empty afterwards.
pub fn poll_slot<F: SimpleFuture<Output = ()>>(slot: &mut Option<F>, wake: Waker) -> (r: bool)
    requires
        slot_ok(*old(slot)),
    ensures
        slot_ok(*final(slot)),
        r == (*final(slot) is None),
        *final(slot) is None <==> (*old(slot) is None || old(slot)->0.ready()),
        *final(slot) is Some ==> !final(slot)->0.ready() && old(slot)->0.polled_to(
            wake,
            final(slot)->0,
            Poll::Pending,
        ),
{
    let finished = match slot {
        Some(f) => f.poll(wake).is_ready(),
        None => true,
    };
    if finished {
        *slot = None;
    }
    finished
}

/// A slot went from `pre` to `post` in one poll with `wake`: it is cleared
/// exactly when it was already empty or its future returned `Ready`, and a
/// future that stays holds its state after a `Pending` poll.
pub open spec fn slot_polled<F: SimpleFuture>(pre: Option<F>, wake: Waker, post: Option<F>) -> bool {
    &&& (post is None <==> (pre is None || slot_ready(pre)))
    &&& (post is Some ==> pre->0.polled_to(wake, post->0, Poll::Pending))
}

/// One poll of a Join with `wake` took it from `pre` to `post`.
pub open spec fn join_polled<A: SimpleFuture<Output = ()>, B: SimpleFuture<Output = ()>>(
    pre: Join<A, B>,
    wake: Waker,
    post: Join<A, B>,
) -> bool {
    &&& slot_polled(pre.slot_a(), wake, post.slot_a())
    &&& slot_polled(pre.slot_b(), wake, post.slot_b())
}

/// The `i`-th poll of the trace `s` polled `a`, and `a` returned `Ready`.
pub open spec fn a_returned_ready<A: SimpleFuture<Output = ()>, B: SimpleFuture<Output = ()>>(
    s: Seq<Join<A, B>>,
    i: int,
) -> bool {
    s[i].slot_a() is Some && slot_ready(s[i].slot_a())
}

/// The `i`-th poll of the trace `s` polled `b`, and `b` returned `Ready`.
pub open spec fn b_returned_ready<A: SimpleFuture<Output = ()>, B: SimpleFuture<Output = ()>>(
    s: Seq<Join<A, B>>,
    i: int,
) -> bool {
    s[i].slot_b() is Some && slot_ready(s[i].slot_b())
}

/// A Join built from two futures and polled `k` times (the states `s[0]`,
/// ..., `s[k]`, the `i`-th poll made with `w[i]`) has completed, which is
/// when its `k`-th poll returned `Ready`, exactly when each of the two
/// futures returned `Ready` in one of those polls, in whichever order.
pub proof fn lemma_join_ready_iff_both_ready<
    A: SimpleFuture<Output = ()>,
    B: SimpleFuture<Output = ()>,
>(s: Seq<Join<A, B>>, w: Seq<Waker>, k: int)
    requires
        0 <= k < s.len(),
        w.len() == s.len() - 1,
        s[0].slot_a() is Some,
        s[0].slot_b() is Some,
        forall|i: int| 0 <= i < s.len() - 1 ==> #[trigger] join_polled(s[i], w[i], s[i + 1]),
    ensures
        s[k].slot_a() is None <==> exists|i: int| 0 <= i < k && a_returned_ready(s, i),
        s[k].slot_b() is None <==> exists|i: int| 0 <= i < k && b_returned_ready(s, i),
        s[k].completed() <==> ((exists|i: int| 0 <= i < k && a_returned_ready(s, i)) && (exists|
            j: int,
        | 0 <= j < k && b_returned_ready(s, j))),
    decreases k,
{
    if k > 0 {
        lemma_join_ready_iff_both_ready(s, w, k - 1);
        assert(join_polled(s[k - 1], w[k - 1], s[k - 1 + 1]));
        if s[k].slot_a() is None {
            if s[k - 1].slot_a() is Some {
                assert(a_returned_ready(s, k - 1));
            }
        }
        if exists|i: int| 0 <= i < k && a_returned_ready(s, i) {
            let i = choose|i: int| 0 <= i < k && a_returned_ready(s, i);
            if i < k - 1 {
                assert(s[k - 1].slot_a() is None);
            }
        }
        if s[k].slot_b() is None {
            if s[k - 1].slot_b() is Some {
                assert(b_returned_ready(s, k - 1));
            }
        }
        if exists|i: int| 0 <= i < k && b_returned_ready(s, i) {
            let i = choose|i: int| 0 <= i < k && b_returned_ready(s, i);
            if i < k - 1 {
                assert(s[k - 1].slot_b() is None);
            }
        }
    }
}

/// Runs two futures to completion on one thread, polling `a` before `b`
/// each turn; it completes once both have.
pub struct Join<FutureA, FutureB> {
    a: Option<FutureA>,
    b: Option<FutureB>,
}

impl<FutureA: SimpleFuture<Output = ()>, FutureB: SimpleFuture<Output = ()>> Join<
    FutureA,
    FutureB,
> {
    /// The first slot.
    pub closed spec fn slot_a(&self) -> Option<FutureA> {
        self.a
    }

    /// The second slot.
    pub closed spec fn slot_b(&self) -> Option<FutureB> {
        self.b
    }

    pub fn new(a: FutureA, b: FutureB) -> (r: Self)
        ensures
            r.slot_a() == Some(a),
            r.slot_b() == Some(b),
    {
        Join { a: Some(a), b: Some(b) }
    }

    /// The first slot, for its owner to reach the future in it.
    pub fn slot_a_mut(&mut self) -> (r: &mut Option<FutureA>)
        ensures
            *r == old(self).slot_a(),
            final(self).slot_a() == *final(r),
            final(self).slot_b() == old(self).slot_b(),
    {
        &mut self.a
    }

    /// The second slot, for its owner to reach the future in it.
    pub fn slot_b_mut(&mut self) -> (r: &mut Option<FutureB>)
        ensures
            *r == old(self).slot_b(),
            final(self).slot_b() == *final(r),
            final(self).slot_a() == old(self).slot_a(),
    {
        &mut self.b
    }

    /// Whether the first future has finished.
    pub fn a_finished(&self) -> (r: bool)
        ensures
            r == (self.slot_a() is None),
    {
        self.a.is_none()
    }

    /// Whether the second future has finished.
    pub fn b_finished(&self) -> (r: bool)
        ensures
            r == (self.slot_b() is None),
    {
        self.b.is_none()
    }
}

impl<FutureA: SimpleFuture<Output = ()>, FutureB: SimpleFuture<Output = ()>> SimpleFuture for Join<
    FutureA,
    FutureB,
> {
    type Output = ();

    open spec fn inv(&self) -> bool {
        slot_ok(self.slot_a()) && slot_ok(self.slot_b())
    }

    open spec fn ready(&self) -> bool {
        slot_ready(self.slot_a()) && slot_ready(self.slot_b())
    }

    open spec fn completed(&self) -> bool {
        self.slot_a() is None && self.slot_b() is None
    }

    /// Each slot is cleared when its future returns `Ready`, and otherwise
    /// keeps that future's state after its poll.
    open spec fn polled_to(&self, wake: Waker, post: Self, out: Poll<()>) -> bool {
        join_polled(*self, wake, post)
    }

    fn poll(&mut self, wake: Waker) -> (r: Poll<()>) {
        let a_done = poll_slot(&mut self.a, wake);
        let b_done = poll_slot(&mut self.b, wake);
        if a_done && b_done {
            Poll::Ready(())
        } else {
            Poll::Pending
        }
    }
}

} // verus!
