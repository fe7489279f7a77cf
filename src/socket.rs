use vstd::prelude::*;

verus! {

/// A wake handle: names the poller that should be woken.
///
/// A resource stores it while a future waits and hands it back when it
/// becomes ready, so the driver can tell which waiter to poll again.
#[derive(Clone, Copy, Debug, PartialEq, Eq, Structural)]
pub struct Waker {
    pub id: u64,
}

impl Waker {
    pub fn new(id: u64) -> (r: Waker)
        ensures
            r.id == id,
    {
        Waker { id }
    }
}

/// A socket-like resource: it may hold bytes waiting to be read, and at
/// most one registered readable callback.
pub struct Socket {
    data: Option<Vec<u8>>,
    callback: Option<Waker>,
}

impl Socket {
    /// The bytes waiting to be read, if any.
    pub closed spec fn pending_data(&self) -> Option<Seq<u8>> {
        match self.data {
            Some(v) => Some(v@),
            None => None,
        }
    }

    /// The callback that will be handed back when data arrives.
    pub closed spec fn registered(&self) -> Option<Waker> {
        self.callback
    }

    /// A socket with nothing to read and no callback.
    pub fn new() -> (r: Socket)
        ensures
            r.pending_data() is None,
            r.registered() is None,
    {
        Socket { data: None, callback: None }
    }

    /// A socket that already has `data` to read.
    pub fn with_data(data: Vec<u8>) -> (r: Socket)
        ensures
            r.pending_data() == Some(data@),
            r.registered() is None,
    {
        Socket { data: Some(data), callback: None }
    }

    /// The readiness predicate.
    pub fn has_data_to_read(&self) -> (r: bool)
        ensures
            r == (self.pending_data() is Some),
    {
        self.data.is_some()
    }

    /// The one-shot read: takes the waiting bytes out of the socket.
    pub fn read_buf(&mut self) -> (r: Vec<u8>)
        requires
            old(self).pending_data() is Some,
        ensures
            r@ == old(self).pending_data()->0,
            final(self).pending_data() is None,
            final(self).registered() == old(self).registered(),
    {
        let taken = self.data.take();
        match taken {
            Some(v) => v,
            None => Vec::new(),
        }
    }

    /// Registers `wake`, replacing any earlier registration.
    pub fn set_readable_callback(&mut self, wake: Waker)
        ensures
            final(self).registered() == Some(wake),
            final(self).pending_data() == old(self).pending_data(),
    {
        self.callback = Some(wake);
    }

    /// Bytes arrive: they are appended to what waits to be read, and the
    /// registered callback, if any, is taken out and returned so that the
    /// caller invokes it exactly once.
    pub fn receive(&mut self, bytes: Vec<u8>) -> (r: Option<Waker>)
        ensures
            r == old(self).registered(),
            final(self).registered() is None,
            final(self).pending_data() == Some(
                match old(self).pending_data() {
                    Some(d) => d + bytes@,
                    None => bytes@,
                },
            ),
    {
        let mut bytes = bytes;
        let merged = match self.data.take() {
            Some(mut d) => {
                d.append(&mut bytes);
                d
            },
            None => bytes,
        };
        self.data = Some(merged);
        self.callback.take()
    }

    /// The callback currently registered, if any.
    pub fn readable_callback(&self) -> (r: Option<Waker>)
        ensures
            r == self.registered(),
    {
        self.callback
    }
}

} // verus!
