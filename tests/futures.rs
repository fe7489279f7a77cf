use std::cell::RefCell;
use std::rc::Rc;

use async_await::{poll_slot, Executor, Join, Poll, SimpleFuture, Socket, SocketRead, Step, Waker};

/// A future that finishes on its first poll with a fixed value.
struct Immediate {
    value: u32,
    done: bool,
}

impl SimpleFuture for Immediate {
    type Output = u32;

    fn inv(&self) -> bool {
        true
    }

    fn ready(&self) -> bool {
        true
    }

    fn completed(&self) -> bool {
        self.done
    }

    fn poll(&mut self, _wake: Waker) -> Poll<u32> {
        self.done = true;
        Poll::Ready(self.value)
    }
}

/// A unit future that records each poll in a shared log and finishes once
/// it has been polled `needed` times.
struct Recorder {
    name: &'static str,
    log: Rc<RefCell<Vec<&'static str>>>,
    needed: u32,
}

impl SimpleFuture for Recorder {
    type Output = ();

    fn inv(&self) -> bool {
        true
    }

    fn ready(&self) -> bool {
        self.needed == 1
    }

    fn completed(&self) -> bool {
        self.needed == 0
    }

    fn poll(&mut self, _wake: Waker) -> Poll<()> {
        self.log.borrow_mut().push(self.name);
        self.needed -= 1;
        if self.needed == 0 {
            Poll::Ready(())
        } else {
            Poll::Pending
        }
    }
}

/// A unit future over a socket: it finishes once the socket has data.
struct Unit(SocketRead, bool);

fn unit(socket: Socket) -> Unit {
    Unit(SocketRead::new(socket), false)
}

impl SimpleFuture for Unit {
    type Output = ();

    fn inv(&self) -> bool {
        true
    }

    fn ready(&self) -> bool {
        self.0.socket().has_data_to_read()
    }

    fn completed(&self) -> bool {
        self.1
    }

    fn poll(&mut self, wake: Waker) -> Poll<()> {
        match self.0.poll(wake) {
            Poll::Ready(_) => {
                self.1 = true;
                Poll::Ready(())
            }
            Poll::Pending => Poll::Pending,
        }
    }
}

#[test]
fn leaf_over_ready_socket_is_ready_at_once() {
    let mut f = SocketRead::new(Socket::with_data(vec![1, 2, 3]));
    match f.poll(Waker::new(7)) {
        Poll::Ready(v) => assert_eq!(v, vec![1, 2, 3]),
        Poll::Pending => panic!("expected Ready"),
    }
    assert_eq!(f.socket().readable_callback(), None);
    assert!(!f.socket().has_data_to_read());
}

#[test]
fn leaf_over_waiting_socket_registers_and_finishes_after_wake() {
    let waker = Waker::new(3);
    let mut ex = Executor::new(SocketRead::new(Socket::new()), waker);
    assert!(matches!(ex.step(), Step::Park));
    assert_eq!(ex.polls(), 1);
    assert_eq!(ex.future_mut().socket().readable_callback(), Some(waker));

    let fired = ex.future_mut().receive(vec![9, 8]);
    assert_eq!(fired, Some(waker));
    assert_eq!(ex.future_mut().socket().readable_callback(), None);
    ex.wake(fired.unwrap());
    match ex.step() {
        Step::Finished(v) => assert_eq!(v, vec![9, 8]),
        Step::Park => panic!("expected Finished"),
    }
    assert_eq!(ex.polls(), 2);
    assert_eq!(ex.suspensions(), 1);
    assert!(ex.is_done());
}

#[test]
fn join_of_ready_and_waiting_leaves() {
    let a = unit(Socket::with_data(vec![1]));
    let b = unit(Socket::new());
    let waker = Waker::new(1);
    let mut join = Join::new(a, b);

    assert!(matches!(join.poll(waker), Poll::Pending));
    assert!(join.a_finished());
    assert!(!join.b_finished());

    let fired = join.slot_b_mut().as_mut().unwrap().0.receive(vec![2]);
    assert_eq!(fired, Some(waker));
    assert!(matches!(join.poll(waker), Poll::Ready(())));
    assert!(join.a_finished());
    assert!(join.b_finished());
}

#[test]
fn join_driven_by_executor() {
    let a = unit(Socket::new());
    let b = unit(Socket::new());
    let waker = Waker::new(5);
    let mut ex = Executor::new(Join::new(a, b), waker);
    assert!(matches!(ex.step(), Step::Park));

    // b's resource fires first, then a's: order does not matter.
    let fired = ex.future_mut().slot_b_mut().as_mut().unwrap().0.receive(vec![2]);
    ex.wake(fired.unwrap());
    assert!(matches!(ex.step(), Step::Park));
    assert!(ex.future_mut().b_finished());
    assert!(!ex.future_mut().a_finished());

    let fired = ex.future_mut().slot_a_mut().as_mut().unwrap().0.receive(vec![1]);
    ex.wake(fired.unwrap());
    assert!(matches!(ex.step(), Step::Finished(())));
    assert_eq!(ex.polls(), 3);
    assert_eq!(ex.suspensions(), 2);
}

#[test]
fn executor_on_immediate_future() {
    let mut ex = Executor::new(Immediate { value: 42, done: false }, Waker::new(0));
    match ex.step() {
        Step::Finished(v) => assert_eq!(v, 42),
        Step::Park => panic!("expected Finished"),
    }
    assert_eq!(ex.polls(), 1);
    assert_eq!(ex.suspensions(), 0);
    assert!(ex.is_done());
}

#[test]
fn join_polls_a_before_b() {
    let log = Rc::new(RefCell::new(Vec::new()));
    let a = Recorder { name: "a", log: log.clone(), needed: 3 };
    let b = Recorder { name: "b", log: log.clone(), needed: 2 };
    let mut join = Join::new(a, b);
    assert!(matches!(join.poll(Waker::new(0)), Poll::Pending));
    assert_eq!(*log.borrow(), vec!["a", "b"]);
    assert!(matches!(join.poll(Waker::new(0)), Poll::Pending));
    assert_eq!(*log.borrow(), vec!["a", "b", "a", "b"]);
    assert!(matches!(join.poll(Waker::new(0)), Poll::Ready(())));
    // b finished on the second poll and is not polled again.
    assert_eq!(*log.borrow(), vec!["a", "b", "a", "b", "a"]);
}

#[test]
fn pending_poll_is_repeatable() {
    let mut f = SocketRead::new(Socket::new());
    for i in 0..4u64 {
        assert!(matches!(f.poll(Waker::new(i)), Poll::Pending));
        assert!(!f.socket().has_data_to_read());
        // Only the most recent poller's callback stays registered.
        assert_eq!(f.socket().readable_callback(), Some(Waker::new(i)));
    }
    assert_eq!(f.receive(vec![4]), Some(Waker::new(3)));
    match f.poll(Waker::new(9)) {
        Poll::Ready(v) => assert_eq!(v, vec![4]),
        Poll::Pending => panic!("expected Ready"),
    }
}

#[test]
fn socket_receive_appends_and_fires_once() {
    let mut s = Socket::with_data(vec![1]);
    assert_eq!(s.receive(vec![2, 3]), None);
    s.set_readable_callback(Waker::new(4));
    assert_eq!(s.receive(vec![4]), Some(Waker::new(4)));
    assert_eq!(s.receive(vec![]), None);
    assert_eq!(s.read_buf(), vec![1, 2, 3, 4]);
    assert!(!s.has_data_to_read());
}

#[test]
fn executor_ignores_other_wakers_and_parks_without_polling() {
    let mut ex = Executor::new(SocketRead::new(Socket::new()), Waker::new(1));
    assert!(matches!(ex.step(), Step::Park));
    ex.wake(Waker::new(2));
    assert!(matches!(ex.step(), Step::Park));
    assert_eq!(ex.polls(), 1);
    assert_eq!(ex.suspensions(), 2);
    ex.wake(Waker::new(1));
    assert!(matches!(ex.step(), Step::Park));
    assert_eq!(ex.polls(), 2);
}

#[test]
fn poll_slot_clears_on_ready() {
    let mut empty: Option<Unit> = None;
    assert!(poll_slot(&mut empty, Waker::new(0)));
    let mut slot = Some(unit(Socket::new()));
    assert!(!poll_slot(&mut slot, Waker::new(0)));
    assert!(slot.is_some());
    slot.as_mut().unwrap().0.receive(vec![1]);
    assert!(poll_slot(&mut slot, Waker::new(0)));
    assert!(slot.is_none());
}

#[test]
fn poll_reports_readiness() {
    assert!(Poll::Ready(1u8).is_ready());
    assert!(!Poll::<u8>::Pending.is_ready());
}
