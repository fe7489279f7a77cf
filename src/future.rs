use vstd::prelude::*;

use crate::poll::Poll;
use crate::socket::{Socket, Waker};

verus! {

/// A poll-based asynchronous computation.
///
/// A future is either active or completed. It becomes completed by the one
/// poll that returns `Ready`, and it must not be polled after that.
pub trait SimpleFuture: Sized {
    type Output;

    /// The future's internal well-formedness.
    spec fn inv(&self) -> bool;

    /// A poll made in this state returns `Ready`.
    spec fn ready(&self) -> bool;

    /// The future has already returned `Ready`.
    spec fn completed(&self) -> bool;

    /// A poll with `wake` may take the future from `self` to `post` and
    /// return `out`. A future that says nothing more of its step keeps the
    /// default.
    open spec fn polled_to(&self, wake: Waker, post: Self, out: Poll<Self::Output>) -> bool {
        true
    }

    /// Advances the future one step. When it cannot finish yet it may keep
    /// `wake` with the resource it waits on and returns `Pending`; a future
    /// left not ready by that poll stays not ready until something outside
    /// it changes.
    fn poll(&mut self, wake: Waker) -> (r: Poll<Self::Output>)
        requires
            old(self).inv(),
            !old(self).completed(),
        ensures
            final(self).inv(),
            (r is Ready) == old(self).ready(),
            final(self).completed() == (r is Ready),
            r is Pending ==> !final(self).ready(),
            old(self).polled_to(wake, *final(self), r),
    ;
}

/// What every poll guarantees (the postcondition of `SimpleFuture::poll`),
/// from `pre` with `wake` to `post` returning
/// `out`: the result is `Ready` exactly when `pre` was ready, the future is
/// completed exactly when it returned `Ready`, a `Pending` leaves it not
/// ready, and the step is one the future itself allows.
pub open spec fn poll_step<F: SimpleFuture>(pre: F, wake: Waker, post: F, out: Poll<F::Output>) -> bool {
    &&& post.inv()
    &&& (out is Ready) == pre.ready()
    &&& post.completed() == (out is Ready)
    &&& (out is Pending ==> !post.ready())
    &&& pre.polled_to(wake, post, out)
}

/// Terminal once: a poll that returns `Ready` leaves the future completed,
/// so the precondition of `poll` rules out any further poll of it.
pub proof fn lemma_ready_is_terminal<F: SimpleFuture>(
    pre: F,
    wake: Waker,
    post: F,
    out: Poll<F::Output>,
)
    requires
        poll_step(pre, wake, post, out),
        out is Ready,
    ensures
        post.completed(),
{
}

/// A future that is not ready returns `Pending` to one poll, and to the next
/// one again: a `Pending` poll never leaves it ready or completed.
pub proof fn lemma_pending_repeats<F: SimpleFuture>(
    f0: F,
    w1: Waker,
    f1: F,
    o1: Poll<F::Output>,
    w2: Waker,
    f2: F,
    o2: Poll<F::Output>,
)
    requires
        !f0.ready(),
        poll_step(f0, w1, f1, o1),
        poll_step(f1, w2, f2, o2),
    ensures
        o1 is Pending,
        o2 is Pending,
        !f1.ready() && !f1.completed(),
        !f2.ready() && !f2.completed(),
{
}

/// A leaf future that waits until its socket has data and then reads it.
pub struct SocketRead {
    socket: Socket,
    done: Ghost<bool>,
}

impl SocketRead {
    /// The socket this future waits on.
    pub closed spec fn resource(&self) -> Socket {
        self.socket
    }

    pub fn new(socket: Socket) -> (r: SocketRead)
        ensures
            r.resource() == socket,
            !r.completed(),
    {
        SocketRead { socket, done: Ghost(false) }
    }

    /// The socket this future waits on.
    pub fn socket(&self) -> (r: &Socket)
        ensures
            *r == self.resource(),
    {
        &self.socket
    }

    /// Bytes arrive at the socket; returns the callback to invoke, if one
    /// was registered.
    pub fn receive(&mut self, bytes: Vec<u8>) -> (r: Option<Waker>)
        ensures
            r == old(self).resource().registered(),
            final(self).resource().registered() is None,
            final(self).resource().pending_data() == Some(
                match old(self).resource().pending_data() {
                    Some(d) => d + bytes@,
                    None => bytes@,
                },
            ),
            final(self).completed() == old(self).completed(),
    {
        self.socket.receive(bytes)
    }

    /// A socket with nothing to read stays that way across `Pending` polls,
    /// and only the callback of the latest poll stays registered.
    pub proof fn lemma_pending_keeps_socket(
        f0: SocketRead,
        w1: Waker,
        f1: SocketRead,
        o1: Poll<Vec<u8>>,
        w2: Waker,
        f2: SocketRead,
        o2: Poll<Vec<u8>>,
    )
        requires
            !f0.ready(),
            poll_step(f0, w1, f1, o1),
            poll_step(f1, w2, f2, o2),
        ensures
            o1 is Pending && o2 is Pending,
            f1.resource().pending_data() is None,
            f2.resource().pending_data() is None,
            f1.resource().registered() == Some(w1),
            f2.resource().registered() == Some(w2),
    {
    }
}

impl SimpleFuture for SocketRead {
    type Output = Vec<u8>;

    open spec fn inv(&self) -> bool {
        true
    }

    open spec fn ready(&self) -> bool {
        self.resource().pending_data() is Some
    }

    closed spec fn completed(&self) -> bool {
        self.done@
    }

    /// A ready socket is read out, with no registration; otherwise `wake`
    /// replaces whatever was registered. Either way nothing is left to read.
    open spec fn polled_to(&self, wake: Waker, post: Self, out: Poll<Vec<u8>>) -> bool {
        &&& post.resource().pending_data() is None
        &&& if self.ready() {
            &&& out is Ready
            &&& out->Ready_0@ == self.resource().pending_data()->0
            &&& post.resource().registered() == self.resource().registered()
        } else {
            &&& out is Pending
            &&& post.resource().registered() == Some(wake)
        }
    }

    fn poll(&mut self, wake: Waker) -> (r: Poll<Vec<u8>>) {
        if self.socket.has_data_to_read() {
            self.done = Ghost(true);
            Poll::Ready(self.socket.read_buf())
        } else {
            self.socket.set_readable_callback(wake);
            Poll::Pending
        }
    }
}

} // verus!
