//! A minimal cooperative task-scheduling core: poll-based futures, a leaf
//! future that waits on a socket-like resource, a two-way join combinator,
//! and the decision step of a driver that runs a root future to completion.
pub mod executor;
pub mod future;
pub mod join;
pub mod poll;
pub mod socket;

pub use executor::{Executor, Step};
pub use future::{SimpleFuture, SocketRead};
pub use join::{poll_slot, Join};
pub use poll::Poll;
pub use socket::{Socket, Waker};
