//! The crate's trusted boundary: declarations of the outside types the
//! transport is built on, and thin wrappers around the outside calls the
//! verified logic makes.  Everything else in the crate is proved against
//! the contracts stated here.

use vstd::prelude::*;

use core::sync::atomic::AtomicBool;
use core::sync::atomic::Ordering;
use std::sync::Arc;

verus! {

// ---------------------------------------------------------------------
// async_channel: the unbounded channels that link a handle to its actor.
// ---------------------------------------------------------------------

#[verifier::external_type_specification]
#[verifier::external_body]
#[verifier::reject_recursive_types(T)]
pub struct ExSender<T>(async_channel::Sender<T>);

#[verifier::external_type_specification]
#[verifier::external_body]
#[verifier::reject_recursive_types(T)]
pub struct ExReceiver<T>(async_channel::Receiver<T>);

/// What one non-blocking receive attempt found.
#[derive(Debug)]
pub enum RecvAttempt<T> {
    /// A queued message.
    Item(T),
    /// The channel holds nothing right now but is still open.
    Empty,
    /// The channel is empty and closed.
    Closed,
}

/// Relies on async_channel::unbounded: creates a linked sender/receiver
/// pair for a channel without a capacity bound.
#[verifier::external_body]
pub fn channel_pair<T>() -> (async_channel::Sender<T>, async_channel::Receiver<T>) {
    async_channel::unbounded()
}

/// Relies on async_channel::Sender::send_blocking: on an unbounded
/// channel it fails only when the channel is closed, and the error hands
/// the unsent message back.
#[verifier::external_body]
pub fn send_now<T>(s: &async_channel::Sender<T>, msg: T) -> (r: Result<(), T>)
    ensures
        r matches Err(m) ==> m == msg,
{
    s.send_blocking(msg).map_err(|e| e.0)
}

/// Relies on async_channel::Receiver::try_recv: returns a queued message,
/// or reports the channel empty, or empty and closed.
#[verifier::external_body]
pub fn try_recv_now<T>(r: &async_channel::Receiver<T>) -> RecvAttempt<T> {
    match r.try_recv() {
        Ok(v) => RecvAttempt::Item(v),
        Err(async_channel::TryRecvError::Empty) => RecvAttempt::Empty,
        Err(async_channel::TryRecvError::Closed) => RecvAttempt::Closed,
    }
}

/// Relies on async_channel::Sender::close: closes the channel; true when
/// this call closed it, false when it was closed already.
#[verifier::external_body]
pub fn close_sender<T>(s: &async_channel::Sender<T>) -> bool {
    s.close()
}

/// Relies on async_channel::Receiver::close: closes the channel; true
/// when this call closed it, false when it was closed already.
#[verifier::external_body]
pub fn close_receiver<T>(r: &async_channel::Receiver<T>) -> bool {
    r.close()
}

// ---------------------------------------------------------------------
// The shared running flag: one atomic boolean behind a shared pointer,
// written by the handle and read by the actor's loops.
// ---------------------------------------------------------------------

/// The authoritative coordination variable between a handle and its
/// actor.  Both sides hold the same flag; flipping it to false asks every
/// loop to stop.  Its value is shared mutable state, so nothing about it
/// can be tracked here beyond what each operation returns.
#[derive(Debug)]
pub struct RunFlag {
    flag: Arc<AtomicBool>,
}

impl RunFlag {
    /// A fresh flag with the given initial value.
    pub fn new(initial: bool) -> RunFlag {
        RunFlag { flag: Arc::new(AtomicBool::new(initial)) }
    }

    /// Relies on Arc::clone: another holder of the same flag.
    #[verifier::external_body]
    pub fn dup(&self) -> RunFlag {
        RunFlag { flag: Arc::clone(&self.flag) }
    }

    /// Relies on AtomicBool::load: the value some holder stored last.
    #[verifier::external_body]
    pub fn load(&self) -> bool {
        self.flag.load(Ordering::Relaxed)
    }

    /// Relies on AtomicBool::store.
    #[verifier::external_body]
    pub fn store(&self, value: bool) {
        self.flag.store(value, Ordering::Relaxed);
    }
}

// ---------------------------------------------------------------------
// tokio: the background task a handle joins on disconnect.
// ---------------------------------------------------------------------

#[verifier::external_type_specification]
#[verifier::external_body]
pub struct ExTokioHandle(tokio::runtime::Handle);

#[verifier::external_type_specification]
#[verifier::external_body]
#[verifier::reject_recursive_types(T)]
pub struct ExJoinHandle<T>(tokio::task::JoinHandle<T>);

#[verifier::external_type_specification]
#[verifier::external_body]
pub struct ExJoinError(tokio::task::JoinError);

/// Relies on tokio::runtime::Handle::block_on, tokio::time::timeout and
/// tokio::task::JoinHandle::abort: blocks the calling thread for the
/// task, up to the given bound, cancelling the task forcefully when the
/// bound passes; yields the task's output, or nothing when the task
/// panicked or was cancelled.  This is the transport's whole bounded
/// cancellation policy in one place: wait, then abort, then reap the
/// aborted task's outcome.  tokio's `timeout` panics on a runtime that
/// has no timer, so the host must build its runtime with the time
/// driver enabled; an opaque handle admits no `requires` that could
/// exclude the others.
#[verifier::external_body]
pub fn join_task_bounded<T>(
    rt: &tokio::runtime::Handle,
    task: tokio::task::JoinHandle<T>,
    wait_ms: u64,
) -> (r: Option<T>) {
    let mut task = task;
    let bound = core::time::Duration::from_millis(wait_ms);
    let bounded_wait = {
        let _context = rt.enter();
        tokio::time::timeout(bound, &mut task)
    };
    match rt.block_on(bounded_wait) {
        Ok(output) => output.ok(),
        Err(_) => {
            task.abort();
            rt.block_on(task).ok()
        },
    }
}

// ---------------------------------------------------------------------
// rand: the raw material for fresh connection identifiers.
// ---------------------------------------------------------------------

/// Relies on rand::random: a uniformly random value; nothing further can
/// be promised of it.
#[verifier::external_body]
pub fn random_bits() -> u128 {
    rand::random::<u128>()
}

// ---------------------------------------------------------------------
// dashmap: the concurrent id-to-handle registry on the server side.
// ---------------------------------------------------------------------

#[verifier::external_type_specification]
#[verifier::external_body]
#[verifier::reject_recursive_types(K)]
#[verifier::reject_recursive_types(V)]
#[verifier::reject_recursive_types(S)]
pub struct ExDashMap<K, V, S>(dashmap::DashMap<K, V, S>);

/// Relies on dashmap::DashMap::len: how many entries the map holds right
/// now; other tasks may change it at any moment.
pub assume_specification<
    'a,
    K: 'a + core::cmp::Eq + core::hash::Hash,
    V: 'a,
    S: std::hash::BuildHasher + Clone,
>[ dashmap::DashMap::<K, V, S>::len ](m: &dashmap::DashMap<K, V, S>) -> usize;

} // verus!
