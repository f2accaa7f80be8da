//! The server side: a listener that accepts connections, a concurrent
//! registry of their handles, and the external proxy over both.
//!
//! The accept loop itself is asynchronous and runs outside the library;
//! what it does with every accepted socket — register, notify, decide
//! whether to go on — is verified here.

use vstd::prelude::*;

use crate::connection::ConnectionHandle;
use crate::connection::ConnectionId;
use crate::events::PeerAddr;
use crate::trusted::RecvAttempt;
use crate::trusted::RunFlag;
use crate::trusted::close_receiver;
use crate::trusted::join_task_bounded;
use crate::trusted::send_now;
use crate::trusted::try_recv_now;

verus! {

/// Why a server operation failed; the taxonomy of the connection errors,
/// seen from the listener.
#[derive(Clone, Copy, Debug, PartialEq, Eq, Structural)]
pub enum ServerError {
    /// A transport fault other than a clean close.
    IOError,
    /// The listener is not running, or its events channel is closed.
    Disconnected,
    /// A payload could not be encoded or decoded.
    SerializationError,
    /// The listener task ended abnormally.
    JoinError,
}

/// The concurrent id-to-handle map the listener fills and the polling
/// side reads.  Insert and remove are lock-free with respect to each
/// other; the map is shared, so its contents can change between any two
/// observations and nothing more than each call's own result is stated.
#[derive(Debug)]
#[verifier::reject_recursive_types(S)]
#[verifier::reject_recursive_types(R)]
pub struct ConnectionRegistry<S, R> {
    map: std::sync::Arc<dashmap::DashMap<ConnectionId, ConnectionHandle<S, R>>>,
}

impl<S, R> ConnectionRegistry<S, R> {
    /// Relies on dashmap::DashMap::new and Arc::new: an empty registry.
    #[verifier::external_body]
    pub fn new() -> ConnectionRegistry<S, R> {
        ConnectionRegistry { map: std::sync::Arc::new(dashmap::DashMap::new()) }
    }

    /// Relies on Arc::clone: another holder of the same registry.
    #[verifier::external_body]
    pub fn clone_ref(&self) -> ConnectionRegistry<S, R> {
        ConnectionRegistry { map: std::sync::Arc::clone(&self.map) }
    }

    /// Relies on Arc::deref: the shared map itself, for callers outside
    /// the library that iterate it.
    #[verifier::external_body]
    pub fn inner(&self) -> &dashmap::DashMap<ConnectionId, ConnectionHandle<S, R>> {
        &self.map
    }

    /// Relies on dashmap::DashMap::insert: stores the handle under the
    /// id, returning the handle the id held before, if any.
    #[verifier::external_body]
    pub fn insert(&self, id: ConnectionId, handle: ConnectionHandle<S, R>) -> Option<
        ConnectionHandle<S, R>,
    > {
        self.map.insert(id, handle)
    }

    /// Relies on dashmap::DashMap::remove: takes the entry of the id out
    /// of the map, if the map holds one right now.  An identifier's
    /// equality is equality of its bits, so the returned key is the one
    /// asked for.
    #[verifier::external_body]
    pub fn remove(&self, id: &ConnectionId) -> (r: Option<
        (ConnectionId, ConnectionHandle<S, R>),
    >)
        ensures
            r matches Some(p) ==> p.0 == *id,
    {
        self.map.remove(id)
    }

    /// How many connections the registry holds right now; the listener
    /// may change it at any moment.
    pub fn len(&self) -> usize {
        self.inner().len()
    }
}

/// The verdict of an accept loop whose events channel was found closed:
/// with the running flag still set this is an unexpected failure and the
/// loop fails; with the flag cleared, the handle stopped the listener
/// and the loop ends normally.
pub fn accept_verdict(running: bool) -> (r: Result<bool, ServerError>)
    ensures
        r == if running {
            Err::<bool, ServerError>(ServerError::Disconnected)
        } else {
            Ok::<bool, ServerError>(false)
        },
{
    if running {
        Err(ServerError::Disconnected)
    } else {
        Ok(false)
    }
}

/// The listener actor's side: the shared registry, the shared running
/// flag, and the sender of the "connected" notifications channel.  The
/// accept loop runs outside the library and drives this through
/// `handle_accepted`.
#[derive(Debug)]
#[verifier::reject_recursive_types(S)]
#[verifier::reject_recursive_types(R)]
pub struct InternalServer<S, R> {
    pub connections: ConnectionRegistry<S, R>,
    pub running: RunFlag,
    pub to_handle: async_channel::Sender<(PeerAddr, ConnectionId)>,
}

impl<S, R> InternalServer<S, R> {
    /// Whether the handle still wants the accept loop to run.
    pub fn is_running(&self) -> bool {
        self.running.load()
    }

    /// What the accept loop does with one accepted connection: registers
    /// the handle under its id, then pushes the "connected" notification
    /// — in that order, so that a consumer of the notification finds the
    /// id registered.  Yields `Ok(true)` to keep accepting; `Ok(false)`
    /// when the handle asked the listener to stop, which is a normal
    /// exit; and `Err(Disconnected)` — the only error — when the events
    /// channel closed while the listener was still meant to be running.
    /// On a failed notification the registration is taken back: nobody
    /// was told the id.
    pub fn handle_accepted(&self, addr: PeerAddr, conn: ConnectionHandle<S, R>) -> (r: Result<
        bool,
        ServerError,
    >)
        ensures
            r matches Err(e) ==> e == ServerError::Disconnected,
    {
        let id = conn.id();
        self.connections.insert(id, conn);
        match send_now(&self.to_handle, (addr, id)) {
            Ok(()) => Ok(true),
            Err(_lost) => {
                self.connections.remove(&id);
                accept_verdict(self.running.load())
            },
        }
    }
}

/// The external proxy over the listener and the registry.  Its receive
/// operation yields "connected" notifications; per-connection payloads
/// are read by iterating the registry and draining each handle.
#[derive(Debug)]
#[verifier::reject_recursive_types(S)]
#[verifier::reject_recursive_types(R)]
pub struct ServerHandle<S, R> {
    /// The registry of live connections, shared with the listener.
    pub connections: ConnectionRegistry<S, R>,
    running: RunFlag,
    task: Option<tokio::task::JoinHandle<Result<(), ServerError>>>,
    from_task: Option<async_channel::Receiver<(PeerAddr, ConnectionId)>>,
    rt: Option<tokio::runtime::Handle>,
    disconnected: bool,
}

impl<S, R> ServerHandle<S, R> {
    /// Whether a listener has been attached: before that, every receive
    /// and disconnect reports `Disconnected`.
    pub closed spec fn spec_bound(&self) -> bool {
        self.from_task is Some
    }

    /// Whether this handle has already observed or performed its
    /// disconnect; once true, every further operation reports
    /// `Disconnected`.
    pub closed spec fn spec_disconnected(&self) -> bool {
        self.disconnected
    }

    /// The receiver of the "connected" notifications channel, once a
    /// listener is attached.
    pub closed spec fn spec_from_task(&self) -> Option<
        async_channel::Receiver<(PeerAddr, ConnectionId)>,
    > {
        self.from_task
    }

    /// The listener task, until the disconnect takes and joins it.
    pub closed spec fn spec_task(&self) -> Option<
        tokio::task::JoinHandle<Result<(), ServerError>>,
    > {
        self.task
    }

    /// The runtime that joins the listener task on disconnect.
    pub closed spec fn spec_rt(&self) -> Option<tokio::runtime::Handle> {
        self.rt
    }

    /// A handle with no listener yet.
    pub fn new() -> (h: ServerHandle<S, R>)
        ensures
            !h.spec_bound(),
            !h.spec_disconnected(),
            h.spec_task() is None,
            h.spec_rt() is None,
    {
        ServerHandle {
            connections: ConnectionRegistry::new(),
            running: RunFlag::new(false),
            task: None,
            from_task: None,
            rt: None,
            disconnected: false,
        }
    }

    /// The shared running flag, for assembling the listener's side.
    pub fn running_flag(&self) -> &RunFlag {
        &self.running
    }

    /// The listener actor's side of this handle: the shared registry and
    /// flag, and the sender of the given notifications channel.  The
    /// caller spawns the accept loop around it and hands the task to
    /// `attach_listener`.
    pub fn listener_core(
        &self,
        to_handle: async_channel::Sender<(PeerAddr, ConnectionId)>,
    ) -> (core: InternalServer<S, R>)
        ensures
            core.to_handle == to_handle,
    {
        InternalServer {
            connections: self.connections.clone_ref(),
            running: self.running.dup(),
            to_handle,
        }
    }

    /// Wires a freshly spawned listener to the handle: sets the running
    /// flag and takes the events channel, the listener task and the
    /// runtime that will join it.
    pub fn attach_listener(
        &mut self,
        from_task: async_channel::Receiver<(PeerAddr, ConnectionId)>,
        task: tokio::task::JoinHandle<Result<(), ServerError>>,
        rt: tokio::runtime::Handle,
    )
        ensures
            final(self).spec_bound(),
            !final(self).spec_disconnected(),
            final(self).spec_from_task() == Some(from_task),
            final(self).spec_task() == Some(task),
            final(self).spec_rt() == Some(rt),
    {
        self.running.store(true);
        self.task = Some(task);
        self.from_task = Some(from_task);
        self.rt = Some(rt);
        self.disconnected = false;
    }

    /// Non-blocking receive of the next "connected" notification:
    /// `Some((peer, id))` when one is queued, `None` when none is
    /// buffered, `Disconnected` when no listener is attached or the
    /// events channel is down.
    pub fn try_recv(&mut self) -> (r: Result<Option<(PeerAddr, ConnectionId)>, ServerError>)
        ensures
            r matches Err(e) ==> e == ServerError::Disconnected,
            r is Ok ==> *final(self) == *old(self) && old(self).spec_bound() && !old(
                self,
            ).spec_disconnected(),
            old(self).spec_disconnected() ==> r is Err && *final(self) == *old(self),
            !old(self).spec_bound() ==> r is Err && *final(self) == *old(self),
            r is Err ==> final(self).spec_disconnected() || !final(self).spec_bound(),
            final(self).spec_bound() == old(self).spec_bound(),
            final(self).spec_from_task() == old(self).spec_from_task(),
            final(self).spec_task() == old(self).spec_task(),
            final(self).spec_rt() == old(self).spec_rt(),
    {
        if self.disconnected {
            return Err(ServerError::Disconnected);
        }
        match self.from_task.as_ref() {
            None => Err(ServerError::Disconnected),
            Some(events) => match try_recv_now(events) {
                RecvAttempt::Item(note) => Ok(Some(note)),
                RecvAttempt::Empty => Ok(None),
                RecvAttempt::Closed => {
                    self.disconnected = true;
                    Err(ServerError::Disconnected)
                },
            },
        }
    }

    /// The cooperative stop signal: clears the running flag and closes
    /// the events channel.
    fn internal_disconnect(&self) -> (r: Result<(), ServerError>)
        ensures
            r matches Err(e) ==> e == ServerError::Disconnected,
            !self.spec_bound() ==> r is Err,
    {
        self.running.store(false);
        match self.from_task.as_ref() {
            None => Err(ServerError::Disconnected),
            Some(events) => {
                if !close_receiver(events) {
                    Err(ServerError::Disconnected)
                } else {
                    Ok(())
                }
            },
        }
    }

    /// Stops the listener: clears the running flag, closes the events
    /// channel, and blocks the calling thread until the listener task
    /// has terminated, propagating any error it produced.  On a handle
    /// that is already disconnected, or that never had a listener, this
    /// returns `Disconnected` — it never panics.  The wait is bounded
    /// and falls back to forceful cancellation (an accept loop blocked
    /// in its socket cannot see the cooperative signal), which asks of
    /// the host a runtime built with its time driver enabled.
    pub fn disconnect_blocking(&mut self) -> (r: Result<(), ServerError>)
        ensures
            final(self).spec_disconnected(),
            old(self).spec_disconnected() ==> r == Err::<(), ServerError>(
                ServerError::Disconnected,
            ) && *final(self) == *old(self),
            !old(self).spec_bound() ==> r == Err::<(), ServerError>(ServerError::Disconnected),
    {
        if self.disconnected {
            return Err(ServerError::Disconnected);
        }
        self.disconnected = true;
        if let Err(e) = self.internal_disconnect() {
            return Err(e);
        }
        let task = self.task.take();
        match (task, self.rt.as_ref()) {
            (Some(t), Some(rt)) => match join_task_bounded(rt, t, crate::connection::JOIN_WAIT_MS) {
                None => Err(ServerError::JoinError),
                Some(outcome) => outcome,
            },
            _ => Err(ServerError::Disconnected),
        }
    }

    /// One drain pass over the "connected" notifications: pulls buffered
    /// ones until the channel is empty, the budget is spent, or an error
    /// is observed — an error ends the pass, so a pass carries at most
    /// one error, reported after the notifications drained before it.
    pub fn drain_connected(&mut self, max: usize) -> (r: (
        Vec<(PeerAddr, ConnectionId)>,
        Option<ServerError>,
    ))
        ensures
            r.0@.len() <= max,
            r.1 matches Some(e) ==> e == ServerError::Disconnected,
            old(self).spec_disconnected() ==> r.0@.len() == 0 && r.1 == Some(
                ServerError::Disconnected,
            ) && *final(self) == *old(self),
            !old(self).spec_bound() ==> r.0@.len() == 0 && r.1 == Some(ServerError::Disconnected),
            r.1 is None ==> *final(self) == *old(self),
            r.1 is Some && old(self).spec_bound() && !old(self).spec_disconnected()
                ==> final(self).spec_disconnected(),
    {
        let ghost entry = *self;
        if self.disconnected || self.from_task.is_none() {
            let notes: Vec<(PeerAddr, ConnectionId)> = Vec::new();
            return (notes, Some(ServerError::Disconnected));
        }
        let mut notes: Vec<(PeerAddr, ConnectionId)> = Vec::new();
        let mut stopped: Option<ServerError> = None;
        let mut done = false;
        while !done && notes.len() < max
            invariant
                notes@.len() <= max,
                !entry.spec_disconnected() && entry.spec_bound(),
                !done ==> *self == entry && stopped is None,
                stopped matches Some(e) ==> e == ServerError::Disconnected,
                stopped is None ==> *self == entry,
                stopped is Some ==> self.spec_disconnected(),
            decreases max - notes.len(), (if done { 0int } else { 1int }),
        {
            match self.try_recv() {
                Ok(Some(note)) => {
                    notes.push(note);
                },
                Ok(None) => {
                    done = true;
                },
                Err(e) => {
                    stopped = Some(e);
                    done = true;
                },
            }
        }
        (notes, stopped)
    }
}

} // verus!
