//! One connection: its identifier, its error taxonomy, the lifecycle of
//! its actor, and the handle a non-async caller drives it through.
//!
//! The actor's two socket loops are asynchronous and run outside the
//! library; every decision they take — when to stop, what a fault means,
//! what to hand the peer — is a verified function here.

use vstd::prelude::*;

use crate::events::Event;
use crate::events::event_id;
use crate::trusted::RecvAttempt;
use crate::trusted::RunFlag;
use crate::trusted::channel_pair;
use crate::trusted::close_receiver;
use crate::trusted::close_sender;
use crate::trusted::join_task_bounded;
use crate::trusted::random_bits;
use crate::trusted::send_now;
use crate::trusted::try_recv_now;

verus! {

/// A process-unique random identifier, assigned when a connection is
/// made or accepted and stable for the connection's lifetime.
/// Uniqueness is probabilistic, not guaranteed.
#[derive(Clone, Copy, Debug, PartialEq, Eq, Hash, Structural)]
pub struct ConnectionId {
    pub bits: u128,
}

impl ConnectionId {
    /// A fresh identifier drawn at random.
    pub fn fresh() -> ConnectionId {
        ConnectionId { bits: random_bits() }
    }
}

/// Why a transport operation failed.
#[derive(Clone, Copy, Debug, PartialEq, Eq, Structural)]
pub enum ConnectionError {
    /// A transport fault other than a clean close.
    IOError,
    /// No live peer: a channel or the running flag already indicates
    /// termination.  A clean peer-initiated close is reported as this,
    /// never as an I/O fault.
    Disconnected,
    /// The payload could not be encoded or decoded.
    SerializationError,
    /// The background task ended abnormally: it panicked or was
    /// force-cancelled.
    JoinError,
}

/// The shape of a fault the socket reported, as far as the error policy
/// reads it: a clean end of the stream, or anything else.
#[derive(Clone, Copy, Debug, PartialEq, Eq, Structural)]
pub enum IoFault {
    /// The stream ended; the peer closed the connection.
    UnexpectedEof,
    /// Any other transport fault.
    Other,
}

impl From<IoFault> for ConnectionError {
    /// Normalization: a clean end of the stream is a disconnect, not an
    /// I/O error; everything else is one.
    fn from(f: IoFault) -> (e: ConnectionError) {
        match f {
            IoFault::UnexpectedEof => ConnectionError::Disconnected,
            IoFault::Other => ConnectionError::IOError,
        }
    }
}

impl vstd::std_specs::convert::FromSpecImpl<IoFault> for ConnectionError {
    open spec fn obeys_from_spec() -> bool {
        true
    }

    open spec fn from_spec(f: IoFault) -> ConnectionError {
        match f {
            IoFault::UnexpectedEof => ConnectionError::Disconnected,
            IoFault::Other => ConnectionError::IOError,
        }
    }
}

/// How long a disconnect waits for the actor task before cancelling it
/// forcefully: cooperative shutdown cannot interrupt a loop blocked
/// inside a socket read or accept, so the wait is bounded.
pub const JOIN_WAIT_MS: u64 = 5000;

/// The verdict of a loop that found its channel closed: with the running
/// flag still set, the other side vanished unexpectedly and the loop
/// fails; with the flag cleared, the handle asked for the shutdown and
/// the loop ends cleanly.
pub fn closed_channel_verdict(running: bool) -> (r: Result<(), ConnectionError>)
    ensures
        r == if running {
            Err::<(), ConnectionError>(ConnectionError::Disconnected)
        } else {
            Ok::<(), ConnectionError>(())
        },
{
    if running {
        Err(ConnectionError::Disconnected)
    } else {
        Ok(())
    }
}

/// The lifecycle of a connection actor.
#[derive(Clone, Copy, Debug, PartialEq, Eq, Structural)]
pub enum ConnState {
    /// The socket is still being opened.
    Connecting,
    /// Both loops run.
    Running,
    /// One loop failed or finished; the other has been signalled to stop.
    ShuttingDown,
    /// Both loops are done and the socket is shut down.
    Closed,
}

/// What the actor observes while it runs.
#[derive(Clone, Copy, Debug, PartialEq, Eq, Structural)]
pub enum ConnEvent {
    /// The socket is open; the loops start.
    Established,
    /// One loop failed, or finished because its channel closed: the
    /// first such event wins the race and starts the shutdown.
    LoopEnded,
    /// The handle cleared the running flag.
    StopRequested,
    /// Both loops have returned and the socket halves were reunited and
    /// shut down.
    Teardown,
}

/// How far along its lifecycle a state is.
pub open spec fn state_rank(s: ConnState) -> int {
    match s {
        ConnState::Connecting => 0,
        ConnState::Running => 1,
        ConnState::ShuttingDown => 2,
        ConnState::Closed => 3,
    }
}

/// The actor's transition function.
pub open spec fn conn_step_spec(s: ConnState, e: ConnEvent) -> ConnState {
    match s {
        ConnState::Connecting => match e {
            ConnEvent::Established => ConnState::Running,
            ConnEvent::LoopEnded => ConnState::ShuttingDown,
            ConnEvent::StopRequested => ConnState::ShuttingDown,
            ConnEvent::Teardown => ConnState::Closed,
        },
        ConnState::Running => match e {
            ConnEvent::Established => ConnState::Running,
            ConnEvent::LoopEnded => ConnState::ShuttingDown,
            ConnEvent::StopRequested => ConnState::ShuttingDown,
            ConnEvent::Teardown => ConnState::Closed,
        },
        ConnState::ShuttingDown => match e {
            ConnEvent::Teardown => ConnState::Closed,
            _ => ConnState::ShuttingDown,
        },
        ConnState::Closed => ConnState::Closed,
    }
}

/// One step of the actor's lifecycle.
pub fn conn_step(s: ConnState, e: ConnEvent) -> (t: ConnState)
    ensures
        t == conn_step_spec(s, e),
{
    match s {
        ConnState::Connecting => match e {
            ConnEvent::Established => ConnState::Running,
            ConnEvent::LoopEnded => ConnState::ShuttingDown,
            ConnEvent::StopRequested => ConnState::ShuttingDown,
            ConnEvent::Teardown => ConnState::Closed,
        },
        ConnState::Running => match e {
            ConnEvent::Established => ConnState::Running,
            ConnEvent::LoopEnded => ConnState::ShuttingDown,
            ConnEvent::StopRequested => ConnState::ShuttingDown,
            ConnEvent::Teardown => ConnState::Closed,
        },
        ConnState::ShuttingDown => match e {
            ConnEvent::Teardown => ConnState::Closed,
            _ => ConnState::ShuttingDown,
        },
        ConnState::Closed => ConnState::Closed,
    }
}

/// A connection only moves forward through its lifecycle.
pub proof fn lemma_conn_step_monotone(s: ConnState, e: ConnEvent)
    ensures
        state_rank(conn_step_spec(s, e)) >= state_rank(s),
{
}

/// A closed connection stays closed: there is no automatic reconnect.
pub proof fn lemma_closed_is_final(e: ConnEvent)
    ensures
        conn_step_spec(ConnState::Closed, e) == ConnState::Closed,
{
}

/// The actor's side of one connection: the opposite ends of the handle's
/// two channels, and the shared running flag.  The asynchronous loops
/// that move bytes run outside the library and drive these fields.
#[derive(Debug)]
#[verifier::reject_recursive_types(S)]
#[verifier::reject_recursive_types(R)]
pub struct Connection<S, R> {
    /// Where the read loop forwards decoded inbound messages.
    pub to_handle: async_channel::Sender<R>,
    /// Where the write loop takes outbound messages from.
    pub from_handle: async_channel::Receiver<S>,
    /// The flag shared with the handle.
    pub running: RunFlag,
}

impl<S, R> Connection<S, R> {
    /// The actor half of a fresh handle/actor pair.
    pub fn new(
        to_handle: async_channel::Sender<R>,
        from_handle: async_channel::Receiver<S>,
        running: RunFlag,
    ) -> (c: Connection<S, R>)
        ensures
            c.to_handle == to_handle,
            c.from_handle == from_handle,
            c.running == running,
    {
        Connection { to_handle, from_handle, running }
    }

    /// Whether the handle still wants the loops to run.
    pub fn is_running(&self) -> bool {
        self.running.load()
    }

    /// The shutdown signal the first finished loop sends the other: the
    /// running flag goes false and both channel ends close.  Reports
    /// `Disconnected` when the channels were closed already.
    pub fn stop(&self) -> (r: Result<(), ConnectionError>)
        ensures
            r matches Err(e) ==> e == ConnectionError::Disconnected,
    {
        self.running.store(false);
        let closed_out = close_sender(&self.to_handle);
        let closed_in = close_receiver(&self.from_handle);
        if !(closed_out && closed_in) {
            return Err(ConnectionError::Disconnected);
        }
        Ok(())
    }
}

/// A freshly wired handle/actor pair, before the actor is spawned: the
/// actor's side, the handle's channel ends, and the handle's copy of the
/// shared running flag.  The caller spawns the actor around `connection`
/// and assembles the handle with `ConnectionHandle::from_parts`.
#[derive(Debug)]
#[verifier::reject_recursive_types(S)]
#[verifier::reject_recursive_types(R)]
pub struct Link<S, R> {
    pub connection: Connection<S, R>,
    pub to_conn: async_channel::Sender<S>,
    pub from_conn: async_channel::Receiver<R>,
    pub running: RunFlag,
}

/// Wires one connection: an outbound and an inbound channel, and one
/// running flag, set, shared by both sides.
pub fn link<S, R>() -> Link<S, R> {
    let (to_conn, from_handle) = channel_pair::<S>();
    let (to_handle, from_conn) = channel_pair::<R>();
    let running = RunFlag::new(true);
    let connection = Connection::new(to_handle, from_handle, running.dup());
    Link { connection, to_conn, from_conn, running }
}

/// A failed send: the error, and the undelivered message handed back to
/// the caller for retry or inspection.
#[derive(Debug)]
pub struct SendRejected<S> {
    pub message: S,
    pub error: ConnectionError,
}

/// The external proxy of one connection, for callers that cannot await.
/// Exactly one handle exists per live connection; it owns the outbound
/// channel's sender, the inbound channel's receiver, the shared running
/// flag and the actor task.
#[derive(Debug)]
#[verifier::reject_recursive_types(S)]
#[verifier::reject_recursive_types(R)]
pub struct ConnectionHandle<S, R> {
    to_conn: async_channel::Sender<S>,
    from_conn: async_channel::Receiver<R>,
    /// The connection's identifier; it never changes after creation.
    uuid: ConnectionId,
    running: RunFlag,
    runtime: tokio::runtime::Handle,
    task: Option<tokio::task::JoinHandle<Result<(), ConnectionError>>>,
    disconnected: bool,
}

impl<S, R> ConnectionHandle<S, R> {
    /// Whether this handle has already observed or performed its
    /// disconnect.  Once true it stays true: every further operation
    /// reports `Disconnected`.
    pub closed spec fn spec_disconnected(&self) -> bool {
        self.disconnected
    }

    /// The identifier the handle was created with.
    pub closed spec fn spec_uuid(&self) -> ConnectionId {
        self.uuid
    }

    /// The outbound channel's sender the handle owns.
    pub closed spec fn spec_to_conn(&self) -> async_channel::Sender<S> {
        self.to_conn
    }

    /// The inbound channel's receiver the handle owns.
    pub closed spec fn spec_from_conn(&self) -> async_channel::Receiver<R> {
        self.from_conn
    }

    /// The handle's copy of the shared running flag.
    pub closed spec fn spec_running(&self) -> RunFlag {
        self.running
    }

    /// The runtime that joins the actor task on disconnect.
    pub closed spec fn spec_runtime(&self) -> tokio::runtime::Handle {
        self.runtime
    }

    /// The actor task, until the disconnect takes and joins it.
    pub closed spec fn spec_task(&self) -> Option<
        tokio::task::JoinHandle<Result<(), ConnectionError>>,
    > {
        self.task
    }

    /// The connection's identifier.
    pub fn id(&self) -> (id: ConnectionId)
        ensures
            id == self.spec_uuid(),
    {
        self.uuid
    }

    /// Assembles the handle of a fresh handle/actor pair.  The channel
    /// ends and the flag must be the counterparts of the actor's; the
    /// task is the actor, already spawned.
    pub fn from_parts(
        to_conn: async_channel::Sender<S>,
        from_conn: async_channel::Receiver<R>,
        uuid: ConnectionId,
        running: RunFlag,
        runtime: tokio::runtime::Handle,
        task: tokio::task::JoinHandle<Result<(), ConnectionError>>,
    ) -> (h: ConnectionHandle<S, R>)
        ensures
            !h.spec_disconnected(),
            h.spec_uuid() == uuid,
            h.spec_to_conn() == to_conn,
            h.spec_from_conn() == from_conn,
            h.spec_running() == running,
            h.spec_runtime() == runtime,
            h.spec_task() == Some(task),
    {
        ConnectionHandle {
            to_conn,
            from_conn,
            uuid,
            running,
            runtime,
            task: Some(task),
            disconnected: false,
        }
    }

    /// Whether the shared running flag is still set.  The flag is shared
    /// mutable state, so this is advisory: the actor may clear it at any
    /// moment.
    pub fn is_running(&self) -> bool {
        self.running.load()
    }

    /// Enqueues one message for the write loop.  Fails with
    /// `Disconnected` when the connection is down, and then hands the
    /// message back to the caller instead of losing it.
    pub fn send_blocking(&mut self, data: S) -> (r: Result<(), SendRejected<S>>)
        ensures
            r matches Err(rej) ==> rej.message == data && rej.error
                == ConnectionError::Disconnected && final(self).spec_disconnected(),
            r is Ok ==> *final(self) == *old(self),
            old(self).spec_disconnected() ==> r is Err && *final(self) == *old(self),
            final(self).spec_uuid() == old(self).spec_uuid(),
            final(self).spec_to_conn() == old(self).spec_to_conn(),
            final(self).spec_from_conn() == old(self).spec_from_conn(),
            final(self).spec_running() == old(self).spec_running(),
            final(self).spec_runtime() == old(self).spec_runtime(),
            final(self).spec_task() == old(self).spec_task(),
    {
        if self.disconnected {
            return Err(SendRejected { message: data, error: ConnectionError::Disconnected });
        }
        match send_now(&self.to_conn, data) {
            Ok(()) => Ok(()),
            Err(returned) => {
                self.disconnected = true;
                Err(SendRejected { message: returned, error: ConnectionError::Disconnected })
            },
        }
    }

    /// Non-blocking receive: a queued message, or nothing when none is
    /// buffered, or `Disconnected` when the connection is down.
    pub fn try_recv(&mut self) -> (r: Result<Option<R>, ConnectionError>)
        ensures
            r matches Err(e) ==> e == ConnectionError::Disconnected
                && final(self).spec_disconnected(),
            r is Ok ==> *final(self) == *old(self) && !old(self).spec_disconnected(),
            old(self).spec_disconnected() ==> r is Err && *final(self) == *old(self),
            final(self).spec_uuid() == old(self).spec_uuid(),
            final(self).spec_to_conn() == old(self).spec_to_conn(),
            final(self).spec_from_conn() == old(self).spec_from_conn(),
            final(self).spec_running() == old(self).spec_running(),
            final(self).spec_runtime() == old(self).spec_runtime(),
            final(self).spec_task() == old(self).spec_task(),
    {
        if self.disconnected {
            return Err(ConnectionError::Disconnected);
        }
        match try_recv_now(&self.from_conn) {
            RecvAttempt::Item(v) => Ok(Some(v)),
            RecvAttempt::Empty => Ok(None),
            RecvAttempt::Closed => {
                self.disconnected = true;
                Err(ConnectionError::Disconnected)
            },
        }
    }

    /// The cooperative shutdown signal, as the actor's `stop`: clears
    /// the running flag and closes both channels.
    fn internal_disconnect(&self) -> (r: Result<(), ConnectionError>)
        ensures
            r matches Err(e) ==> e == ConnectionError::Disconnected,
    {
        self.running.store(false);
        let closed_out = close_sender(&self.to_conn);
        let closed_in = close_receiver(&self.from_conn);
        if !(closed_out && closed_in) {
            return Err(ConnectionError::Disconnected);
        }
        Ok(())
    }

    /// Disconnects: clears the running flag, closes both channels, and
    /// blocks the calling thread until the actor task has terminated,
    /// propagating any error the actor produced.  On a handle that is
    /// already disconnected this returns `Disconnected` again — it never
    /// panics — and the handle stays as it is.  The wait is bounded
    /// (`JOIN_WAIT_MS`), which asks of the host a runtime built with its
    /// time driver enabled.
    pub fn disconnect_blocking(&mut self) -> (r: Result<(), ConnectionError>)
        ensures
            final(self).spec_disconnected(),
            old(self).spec_disconnected() ==> r == Err::<(), ConnectionError>(
                ConnectionError::Disconnected,
            ) && *final(self) == *old(self),
            final(self).spec_uuid() == old(self).spec_uuid(),
            final(self).spec_to_conn() == old(self).spec_to_conn(),
            final(self).spec_from_conn() == old(self).spec_from_conn(),
            final(self).spec_running() == old(self).spec_running(),
            final(self).spec_runtime() == old(self).spec_runtime(),
            !old(self).spec_disconnected() ==> final(self).spec_task() is None,
    {
        if self.disconnected {
            return Err(ConnectionError::Disconnected);
        }
        let signal = self.internal_disconnect();
        let task = self.task.take();
        self.disconnected = true;
        match task {
            None => Err(ConnectionError::Disconnected),
            Some(t) => match join_task_bounded(&self.runtime, t, JOIN_WAIT_MS) {
                None => Err(ConnectionError::JoinError),
                Some(outcome) => match signal {
                    Err(e) => Err(e),
                    Ok(()) => outcome,
                },
            },
        }
    }

    /// One drain pass: pulls buffered messages off the handle, one event
    /// per message, until the channel is empty, the budget is spent, or
    /// an error is observed — an error ends the pass, so a pass carries
    /// at most one error, and only as its last event.
    pub fn drain_events(&mut self, max: usize) -> (events: Vec<Event<R>>)
        ensures
            events@.len() <= max + 1,
            forall|i: int|
                0 <= i < events@.len() ==> event_id(#[trigger] events@[i]) == old(self).spec_uuid(),
            forall|i: int| 0 <= i < events@.len() ==> !(#[trigger] events@[i] is Connected),
            forall|i: int| 0 <= i < events@.len() - 1 ==> #[trigger] events@[i] is Message,
            forall|i: int|
                0 <= i < events@.len() && #[trigger] events@[i] is Error ==> events@[i]
                    == Event::<R>::Error(ConnectionError::Disconnected, old(self).spec_uuid())
                    && final(self).spec_disconnected(),
            old(self).spec_disconnected() ==> events@.len() == 1 && events@[0] == Event::<
                R,
            >::Error(ConnectionError::Disconnected, old(self).spec_uuid()) && *final(self) == *old(self),
            final(self).spec_uuid() == old(self).spec_uuid(),
            !final(self).spec_disconnected() ==> *final(self) == *old(self),
    {
        let ghost entry = *self;
        if self.disconnected {
            let mut events: Vec<Event<R>> = Vec::new();
            events.push(Event::Error(ConnectionError::Disconnected, self.uuid));
            return events;
        }
        let mut events: Vec<Event<R>> = Vec::new();
        let mut taken: usize = 0;
        let mut done = false;
        while !done && taken < max
            invariant
                taken <= max,
                !entry.spec_disconnected(),
                self.uuid == entry.uuid,
                !done ==> *self == entry && events@.len() == taken && (forall|i: int|
                    0 <= i < events@.len() ==> #[trigger] events@[i] is Message),
                done ==> events@.len() <= taken + 1,
                forall|i: int| 0 <= i < events@.len() ==> event_id(#[trigger] events@[i])
                    == entry.uuid,
                forall|i: int| 0 <= i < events@.len() ==> !(#[trigger] events@[i] is Connected),
                forall|i: int| 0 <= i < events@.len() - 1 ==> #[trigger] events@[i] is Message,
                forall|i: int|
                    0 <= i < events@.len() && #[trigger] events@[i] is Error ==> events@[i]
                        == Event::<R>::Error(ConnectionError::Disconnected, entry.uuid)
                        && self.spec_disconnected(),
                !self.spec_disconnected() ==> *self == entry,
            decreases max - taken, (if done { 0int } else { 1int }),
        {
            match self.try_recv() {
                Ok(Some(value)) => {
                    events.push(Event::Message(value, self.uuid));
                    taken = taken + 1;
                },
                Ok(None) => {
                    done = true;
                },
                Err(e) => {
                    events.push(Event::Error(e, self.uuid));
                    done = true;
                },
            }
        }
        events
    }
}

} // verus!
